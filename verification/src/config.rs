//! File filtering rules and their compiled form.
//!
//! A `FilterRules` value describes which files are eligible for
//! organization: exact filenames, extensions, glob patterns and regular
//! expressions to exclude, and glob patterns that whitelist files past
//! every exclusion.  Compiling validates every pattern eagerly; the
//! compiled form then decides inclusion per path.
//!
//! Glob and regex matching are performed by the `glob` and `regex` crates;
//! their results are named by uninterpreted functions over the pattern and
//! the matched text, and the decision logic is verified over those names.

use vstd::prelude::*;

use crate::strpath::extension_of;
use crate::strpath::file_name_of;
use crate::strpath::spec_extension;
use crate::strpath::spec_file_name;
use crate::strpath::spec_lower;
use crate::strpath::spec_starts_with_dot;
use crate::strpath::starts_with_dot;
use crate::strpath::str_eq;
use crate::strpath::str_eq_ignore_case;

verus! {

/// Errors raised while loading or compiling filter configuration.
#[derive(Debug, Clone)]
pub enum ConfigError {
    /// Configuration file not found at the given path.
    ConfigNotFound(String),
    /// Invalid configuration file syntax or structure.
    ConfigInvalid(String),
    /// Invalid glob pattern.
    InvalidGlobPattern(String),
    /// Invalid regex pattern, with the underlying reason.
    InvalidRegexPattern {
        /// The regex pattern that failed to compile.
        pattern: String,
        /// Why the pattern is invalid.
        reason: String,
    },
    /// I/O error while reading configuration.
    IoError(String),
}

impl ConfigError {
    /// A human-readable rendering of the error.
    pub fn message(&self) -> (r: String)
        ensures
            r@ == match *self {
                ConfigError::ConfigNotFound(ref p) => "Configuration file not found: "@ + p@,
                ConfigError::ConfigInvalid(ref m) => "Invalid configuration: "@ + m@,
                ConfigError::InvalidGlobPattern(ref p) => "Invalid glob pattern '"@ + p@
                    + "': expected *.ext or dir/**"@,
                ConfigError::InvalidRegexPattern { ref pattern, ref reason } =>
                    "Invalid regex pattern '"@ + pattern@ + "': "@ + reason@,
                ConfigError::IoError(ref m) => "IO error reading configuration: "@ + m@,
            },
    {
        match self {
            ConfigError::ConfigNotFound(p) => {
                "Configuration file not found: ".to_owned().concat(p.as_str())
            },
            ConfigError::ConfigInvalid(m) => "Invalid configuration: ".to_owned().concat(
                m.as_str(),
            ),
            ConfigError::InvalidGlobPattern(p) => {
                "Invalid glob pattern '".to_owned().concat(p.as_str()).concat(
                    "': expected *.ext or dir/**",
                )
            },
            ConfigError::InvalidRegexPattern { pattern, reason } => {
                "Invalid regex pattern '".to_owned().concat(pattern.as_str()).concat("': ").concat(
                    reason.as_str(),
                )
            },
            ConfigError::IoError(m) => "IO error reading configuration: ".to_owned().concat(
                m.as_str(),
            ),
        }
    }
}

/// Rules for excluding files from organization.
#[derive(Debug, Clone)]
pub struct ExcludeRules {
    /// Exact filenames to exclude (e.g. `.DS_Store`, `Thumbs.db`).
    pub filenames: Vec<String>,
    /// Glob patterns to exclude (e.g. `*.tmp`, `node_modules/**`).
    pub patterns: Vec<String>,
    /// File extensions to exclude, matched case-insensitively.
    pub extensions: Vec<String>,
    /// Regex patterns to exclude, matched against the filename.
    pub regex: Vec<String>,
}

impl Default for ExcludeRules {
    /// Empty exclusion rules.
    fn default() -> (r: Self)
        ensures
            r.filenames@ == Seq::<String>::empty(),
            r.patterns@ == Seq::<String>::empty(),
            r.extensions@ == Seq::<String>::empty(),
            r.regex@ == Seq::<String>::empty(),
    {
        ExcludeRules { filenames: Vec::new(), patterns: Vec::new(), extensions: Vec::new(), regex: Vec::new() }
    }
}

/// Rules for including files, overriding every exclusion (a whitelist).
#[derive(Debug, Clone)]
pub struct IncludeRules {
    /// Glob patterns that override exclude rules.
    pub patterns: Vec<String>,
}

impl Default for IncludeRules {
    /// Empty inclusion rules.
    fn default() -> (r: Self)
        ensures
            r.patterns@ == Seq::<String>::empty(),
    {
        IncludeRules { patterns: Vec::new() }
    }
}

/// Root-level filter rules.
#[derive(Debug, Clone)]
pub struct FilterRules {
    /// Whether files whose names start with `.` take part at all.
    pub enable_hidden_files: bool,
    /// Rules for excluding files.
    pub exclude: ExcludeRules,
    /// Rules for including files past the exclusions.
    pub include_rules: IncludeRules,
}

/// The default for `FilterRules::enable_hidden_files`.
pub fn default_enable_hidden_files() -> (r: bool)
    ensures
        r == false,
{
    false
}

/// Filter configuration as a whole.
#[derive(Debug, Clone)]
pub struct FilterConfig {
    /// The filter rules.
    pub filters: FilterRules,
}

impl Default for FilterConfig {
    /// Hidden files off, no other rules.
    fn default() -> (r: Self)
        ensures
            r.filters.enable_hidden_files == false,
            r.filters.exclude.filenames@ == Seq::<String>::empty(),
            r.filters.exclude.patterns@ == Seq::<String>::empty(),
            r.filters.exclude.extensions@ == Seq::<String>::empty(),
            r.filters.exclude.regex@ == Seq::<String>::empty(),
            r.filters.include_rules.patterns@ == Seq::<String>::empty(),
    {
        FilterConfig {
            filters: FilterRules {
                enable_hidden_files: false,
                exclude: ExcludeRules::default(),
                include_rules: IncludeRules::default(),
            },
        }
    }
}

impl FilterConfig {
    /// Compiles the configuration into matcher-ready filters.
    pub fn compile(self) -> (r: Result<CompiledFilters, ConfigError>)
        ensures
            compile_post(self.filters, r),
    {
        CompiledFilters::new(self.filters)
    }
}

/// Whether the pattern is one that `glob::Pattern::new` accepts.
pub uninterp spec fn glob_pattern_ok(pattern: Seq<char>) -> bool;

/// The pattern string a compiled `glob::Pattern` was built from.
pub uninterp spec fn glob_source(p: glob::Pattern) -> Seq<char>;

/// Whether a glob pattern matches a path, as `glob::Pattern::matches`
/// decides it.
pub uninterp spec fn glob_match(pattern: Seq<char>, path: Seq<char>) -> bool;

/// Whether the pattern is one that `regex::Regex::new` accepts.
pub uninterp spec fn regex_ok(pattern: Seq<char>) -> bool;

/// The pattern string a compiled `regex::Regex` was built from.
pub uninterp spec fn regex_source(r: regex::Regex) -> Seq<char>;

/// Whether a regex pattern matches somewhere in a text, as
/// `regex::Regex::is_match` decides it.
pub uninterp spec fn regex_match(pattern: Seq<char>, text: Seq<char>) -> bool;

#[verifier::external_type_specification]
#[verifier::external_body]
pub struct ExGlobPattern(glob::Pattern);

#[verifier::external_type_specification]
#[verifier::external_body]
pub struct ExRegex(regex::Regex);

/// Relies on glob::Pattern::new: compilation is a pure function of the
/// pattern string and fails exactly on malformed patterns.
#[verifier::external_body]
fn compile_glob(pattern: &str) -> (r: Option<glob::Pattern>)
    ensures
        r is Some <==> glob_pattern_ok(pattern@),
        r is Some ==> glob_source(r.unwrap()) == pattern@,
{
    glob::Pattern::new(pattern).ok()
}

/// Relies on glob::Pattern::matches: the verdict is a pure function of
/// the pattern the matcher was built from and the matched path.
#[verifier::external_body]
fn glob_matches(p: &glob::Pattern, path: &str) -> (r: bool)
    ensures
        r == glob_match(glob_source(*p), path@),
{
    p.matches(path)
}

/// Relies on regex::Regex::new: compilation is a pure function of the
/// pattern string and fails exactly on malformed patterns; the error's
/// rendering is handed back as the reason.
#[verifier::external_body]
fn compile_regex(pattern: &str) -> (r: Result<regex::Regex, String>)
    ensures
        r is Ok <==> regex_ok(pattern@),
        r is Ok ==> regex_source(r.unwrap()) == pattern@,
{
    match regex::Regex::new(pattern) {
        Ok(re) => Ok(re),
        Err(e) => Err(e.to_string()),
    }
}

/// Relies on regex::Regex::is_match: the verdict is a pure function of
/// the pattern the matcher was built from and the text.
#[verifier::external_body]
fn regex_is_match(re: &regex::Regex, text: &str) -> (r: bool)
    ensures
        r == regex_match(regex_source(*re), text@),
{
    re.is_match(text)
}

/// The views of a list of strings.
pub open spec fn views_of(v: Seq<String>) -> Seq<Seq<char>> {
    v.map_values(|s: String| s@)
}

/// Every glob pattern in the list is well-formed.
pub open spec fn all_globs_ok(pats: Seq<Seq<char>>) -> bool {
    forall|k: int| 0 <= k < pats.len() ==> glob_pattern_ok(#[trigger] pats[k])
}

/// Every regex pattern in the list is well-formed.
pub open spec fn all_regexes_ok(pats: Seq<Seq<char>>) -> bool {
    forall|k: int| 0 <= k < pats.len() ==> regex_ok(#[trigger] pats[k])
}

/// `k` is the first ill-formed glob pattern in the list.
pub open spec fn first_bad_glob(pats: Seq<Seq<char>>, k: int) -> bool {
    &&& 0 <= k < pats.len()
    &&& !glob_pattern_ok(pats[k])
    &&& forall|j: int| 0 <= j < k ==> glob_pattern_ok(#[trigger] pats[j])
}

/// `k` is the first ill-formed regex pattern in the list.
pub open spec fn first_bad_regex(pats: Seq<Seq<char>>, k: int) -> bool {
    &&& 0 <= k < pats.len()
    &&& !regex_ok(pats[k])
    &&& forall|j: int| 0 <= j < k ==> regex_ok(#[trigger] pats[j])
}

/// Some glob pattern in the list matches the path.
pub open spec fn spec_any_glob(patterns: Seq<Seq<char>>, path: Seq<char>) -> bool {
    exists|k: int| 0 <= k < patterns.len() && glob_match(#[trigger] patterns[k], path)
}

/// Some regex pattern in the list matches the text.
pub open spec fn spec_any_regex(patterns: Seq<Seq<char>>, text: Seq<char>) -> bool {
    exists|k: int| 0 <= k < patterns.len() && regex_match(#[trigger] patterns[k], text)
}

/// The name equals one of the listed filenames, compared exactly.
pub open spec fn spec_filename_listed(filenames: Seq<Seq<char>>, name: Seq<char>) -> bool {
    exists|k: int| 0 <= k < filenames.len() && #[trigger] filenames[k] == name
}

/// The extension equals one of the listed extensions, compared
/// case-insensitively.
pub open spec fn spec_extension_listed(extensions: Seq<Seq<char>>, ext: Seq<char>) -> bool {
    exists|k: int| 0 <= k < extensions.len() && spec_lower(#[trigger] extensions[k]) == spec_lower(
        ext,
    )
}

/// Compiled, matcher-ready filters.
pub struct CompiledFilters {
    enable_hidden_files: bool,
    exclude_filenames: Vec<String>,
    exclude_extensions: Vec<String>,
    exclude_patterns: Vec<glob::Pattern>,
    exclude_regexes: Vec<regex::Regex>,
    include_patterns: Vec<glob::Pattern>,
}

/// What a successful or failed compilation must look like, for the given
/// rules.
pub open spec fn compile_post(rules: FilterRules, r: Result<CompiledFilters, ConfigError>) -> bool {
    let ex = views_of(rules.exclude.patterns@);
    let inc = views_of(rules.include_rules.patterns@);
    let rx = views_of(rules.exclude.regex@);
    match r {
        Ok(f) => {
            &&& all_globs_ok(ex)
            &&& all_globs_ok(inc)
            &&& all_regexes_ok(rx)
            &&& f.hidden_enabled() == rules.enable_hidden_files
            &&& f.filenames_view() == views_of(rules.exclude.filenames@)
            &&& f.extensions_view() == views_of(rules.exclude.extensions@)
            &&& f.exclude_patterns_view() == ex
            &&& f.include_patterns_view() == inc
            &&& f.regexes_view() == rx
        },
        Err(e) => match e {
            ConfigError::InvalidGlobPattern(p) => {
                (exists|k: int| first_bad_glob(ex, k) && p@ == ex[k]) || (all_globs_ok(ex)
                    && exists|k: int| first_bad_glob(inc, k) && p@ == inc[k])
            },
            ConfigError::InvalidRegexPattern { pattern, reason } => {
                &&& all_globs_ok(ex)
                &&& all_globs_ok(inc)
                &&& exists|k: int| first_bad_regex(rx, k) && pattern@ == rx[k]
            },
            _ => false,
        },
    }
}

impl CompiledFilters {
    /// Whether hidden files take part.
    pub closed spec fn hidden_enabled(&self) -> bool {
        self.enable_hidden_files
    }

    /// The excluded filenames.
    pub closed spec fn filenames_view(&self) -> Seq<Seq<char>> {
        views_of(self.exclude_filenames@)
    }

    /// The excluded extensions, as given.
    pub closed spec fn extensions_view(&self) -> Seq<Seq<char>> {
        views_of(self.exclude_extensions@)
    }

    /// The source strings of the compiled exclude glob patterns.
    pub closed spec fn exclude_patterns_view(&self) -> Seq<Seq<char>> {
        self.exclude_patterns@.map_values(|p: glob::Pattern| glob_source(p))
    }

    /// The source strings of the compiled include glob patterns.
    pub closed spec fn include_patterns_view(&self) -> Seq<Seq<char>> {
        self.include_patterns@.map_values(|p: glob::Pattern| glob_source(p))
    }

    /// The source strings of the compiled exclude regexes.
    pub closed spec fn regexes_view(&self) -> Seq<Seq<char>> {
        self.exclude_regexes@.map_values(|p: regex::Regex| regex_source(p))
    }

    /// Compiles filter rules, validating every pattern eagerly; no
    /// filters are produced when any pattern is invalid.
    fn new(rules: FilterRules) -> (r: Result<Self, ConfigError>)
        ensures
            compile_post(rules, r),
    {
        let exclude_patterns = match compile_glob_list(&rules.exclude.patterns) {
            Ok(v) => v,
            Err(p) => {
                return Err(ConfigError::InvalidGlobPattern(p));
            },
        };
        let include_patterns = match compile_glob_list(&rules.include_rules.patterns) {
            Ok(v) => v,
            Err(p) => {
                return Err(ConfigError::InvalidGlobPattern(p));
            },
        };
        let exclude_regexes = match compile_regex_list(&rules.exclude.regex) {
            Ok(v) => v,
            Err((pattern, reason)) => {
                return Err(ConfigError::InvalidRegexPattern { pattern, reason });
            },
        };
        Ok(
            CompiledFilters {
                enable_hidden_files: rules.enable_hidden_files,
                exclude_filenames: rules.exclude.filenames,
                exclude_extensions: rules.exclude.extensions,
                exclude_patterns,
                exclude_regexes,
                include_patterns,
            },
        )
    }

    /// The inclusion decision for one path, in rule-priority order.
    pub open spec fn spec_should_include(&self, path: Seq<char>) -> bool {
        let name = match spec_file_name(path) {
            Some(n) => n,
            None => Seq::<char>::empty(),
        };
        if spec_any_glob(self.include_patterns_view(), path) {
            true
        } else if !self.hidden_enabled() && spec_starts_with_dot(name) {
            false
        } else if spec_filename_listed(self.filenames_view(), name) {
            false
        } else if match spec_extension(path) {
            Some(e) => spec_extension_listed(self.extensions_view(), e),
            None => false,
        } {
            false
        } else if spec_any_glob(self.exclude_patterns_view(), path) {
            false
        } else if spec_any_regex(self.regexes_view(), name) {
            false
        } else {
            true
        }
    }

    /// Decides whether a file takes part in organization.  The checks
    /// run in priority order with the include whitelist first: a
    /// whitelisted path is always included, and otherwise the first
    /// matching exclusion wins.
    pub fn should_include(&self, file_path: &str) -> (r: bool)
        ensures
            r == self.spec_should_include(file_path@),
    {
        let name: String = match file_name_of(file_path) {
            Some(n) => n,
            None => String::new(),
        };
        if any_glob_matches(&self.include_patterns, file_path) {
            return true;
        }
        if !self.enable_hidden_files && starts_with_dot(name.as_str()) {
            return false;
        }
        if string_listed(&self.exclude_filenames, name.as_str()) {
            return false;
        }
        if let Some(ext) = extension_of(file_path) {
            if string_listed_ignore_case(&self.exclude_extensions, ext.as_str()) {
                return false;
            }
        }
        if any_glob_matches(&self.exclude_patterns, file_path) {
            return false;
        }
        if any_regex_matches(&self.exclude_regexes, name.as_str()) {
            return false;
        }
        true
    }
}

/// The inclusion decision depends only on the rules and the path, so two
/// calls on the same path always agree.
pub proof fn lemma_should_include_idempotent(f: &CompiledFilters, path: Seq<char>, r1: bool, r2: bool)
    requires
        r1 == f.spec_should_include(path),
        r2 == f.spec_should_include(path),
    ensures
        r1 == r2,
{
}

/// Compiles a list of glob patterns, stopping at the first invalid one.
fn compile_glob_list(patterns: &Vec<String>) -> (r: Result<Vec<glob::Pattern>, String>)
    ensures
        match r {
            Ok(v) => all_globs_ok(views_of(patterns@)) && v@.map_values(
                |p: glob::Pattern| glob_source(p),
            ) == views_of(patterns@),
            Err(p) => exists|k: int|
                first_bad_glob(views_of(patterns@), k) && p@ == views_of(patterns@)[k],
        },
{
    let ghost pviews: Seq<Seq<char>> = views_of(patterns@);
    let mut out: Vec<glob::Pattern> = Vec::new();
    let mut i: usize = 0;
    while i < patterns.len()
        invariant
            i <= patterns@.len(),
            pviews == views_of(patterns@),
            pviews.len() == patterns@.len(),
            out@.len() == i,
            forall|j: int| 0 <= j < i ==> glob_pattern_ok(#[trigger] pviews[j]),
            forall|j: int|
                0 <= j < i ==> glob_source(#[trigger] out@[j]) == pviews[j],
        decreases patterns@.len() - i,
    {
        match compile_glob(patterns[i].as_str()) {
            Some(p) => {
                proof {
                    assert(pviews[i as int] == patterns@[i as int]@);
                }
                out.push(p);
            },
            None => {
                proof {
                    assert(pviews[i as int] == patterns@[i as int]@);
                    assert(first_bad_glob(pviews, i as int));
                }
                return Err(patterns[i].clone());
            },
        }
        i += 1;
    }
    proof {
        assert(out@.map_values(|p: glob::Pattern| glob_source(p)) =~= pviews);
    }
    Ok(out)
}

/// Compiles a list of regex patterns, stopping at the first invalid one.
fn compile_regex_list(patterns: &Vec<String>) -> (r: Result<Vec<regex::Regex>, (String, String)>)
    ensures
        match r {
            Ok(v) => all_regexes_ok(views_of(patterns@)) && v@.map_values(
                |p: regex::Regex| regex_source(p),
            ) == views_of(patterns@),
            Err(e) => exists|k: int|
                first_bad_regex(views_of(patterns@), k) && e.0@ == views_of(patterns@)[k],
        },
{
    let ghost pviews: Seq<Seq<char>> = views_of(patterns@);
    let mut out: Vec<regex::Regex> = Vec::new();
    let mut i: usize = 0;
    while i < patterns.len()
        invariant
            i <= patterns@.len(),
            pviews == views_of(patterns@),
            pviews.len() == patterns@.len(),
            out@.len() == i,
            forall|j: int| 0 <= j < i ==> regex_ok(#[trigger] pviews[j]),
            forall|j: int|
                0 <= j < i ==> regex_source(#[trigger] out@[j]) == pviews[j],
        decreases patterns@.len() - i,
    {
        match compile_regex(patterns[i].as_str()) {
            Ok(p) => {
                proof {
                    assert(pviews[i as int] == patterns@[i as int]@);
                }
                out.push(p);
            },
            Err(reason) => {
                proof {
                    assert(pviews[i as int] == patterns@[i as int]@);
                    assert(first_bad_regex(pviews, i as int));
                }
                return Err((patterns[i].clone(), reason));
            },
        }
        i += 1;
    }
    proof {
        assert(out@.map_values(|p: regex::Regex| regex_source(p)) =~= pviews);
    }
    Ok(out)
}

/// Whether any compiled glob pattern in the list matches the path.
fn any_glob_matches(patterns: &Vec<glob::Pattern>, path: &str) -> (r: bool)
    ensures
        r == spec_any_glob(patterns@.map_values(|p: glob::Pattern| glob_source(p)), path@),
{
    let ghost pviews: Seq<Seq<char>> = patterns@.map_values(|p: glob::Pattern| glob_source(p));
    let mut i: usize = 0;
    while i < patterns.len()
        invariant
            i <= patterns@.len(),
            pviews == patterns@.map_values(|p: glob::Pattern| glob_source(p)),
            pviews.len() == patterns@.len(),
            forall|j: int| 0 <= j < i ==> !glob_match(#[trigger] pviews[j], path@),
        decreases patterns@.len() - i,
    {
        if glob_matches(&patterns[i], path) {
            proof {
                assert(pviews[i as int] == glob_source(patterns@[i as int]));
            }
            return true;
        }
        proof {
            assert(pviews[i as int] == glob_source(patterns@[i as int]));
        }
        i += 1;
    }
    false
}

/// Whether any compiled regex in the list matches the text.
fn any_regex_matches(patterns: &Vec<regex::Regex>, text: &str) -> (r: bool)
    ensures
        r == spec_any_regex(patterns@.map_values(|p: regex::Regex| regex_source(p)), text@),
{
    let ghost pviews: Seq<Seq<char>> = patterns@.map_values(|p: regex::Regex| regex_source(p));
    let mut i: usize = 0;
    while i < patterns.len()
        invariant
            i <= patterns@.len(),
            pviews == patterns@.map_values(|p: regex::Regex| regex_source(p)),
            pviews.len() == patterns@.len(),
            forall|j: int| 0 <= j < i ==> !regex_match(#[trigger] pviews[j], text@),
        decreases patterns@.len() - i,
    {
        if regex_is_match(&patterns[i], text) {
            proof {
                assert(pviews[i as int] == regex_source(patterns@[i as int]));
            }
            return true;
        }
        proof {
            assert(pviews[i as int] == regex_source(patterns@[i as int]));
        }
        i += 1;
    }
    false
}

/// Whether the key occurs in the list, compared exactly.
fn string_listed(list: &Vec<String>, key: &str) -> (r: bool)
    ensures
        r == spec_filename_listed(views_of(list@), key@),
{
    let ghost lviews: Seq<Seq<char>> = views_of(list@);
    let mut i: usize = 0;
    while i < list.len()
        invariant
            i <= list@.len(),
            lviews == views_of(list@),
            lviews.len() == list@.len(),
            forall|j: int| 0 <= j < i ==> #[trigger] lviews[j] != key@,
        decreases list@.len() - i,
    {
        if str_eq(list[i].as_str(), key) {
            proof {
                assert(lviews[i as int] == list@[i as int]@);
            }
            return true;
        }
        proof {
            assert(lviews[i as int] == list@[i as int]@);
        }
        i += 1;
    }
    false
}

/// Whether the key occurs in the list, compared case-insensitively.
fn string_listed_ignore_case(list: &Vec<String>, key: &str) -> (r: bool)
    ensures
        r == spec_extension_listed(views_of(list@), key@),
{
    let ghost lviews: Seq<Seq<char>> = views_of(list@);
    let mut i: usize = 0;
    while i < list.len()
        invariant
            i <= list@.len(),
            lviews == views_of(list@),
            lviews.len() == list@.len(),
            forall|j: int| 0 <= j < i ==> spec_lower(#[trigger] lviews[j]) != spec_lower(key@),
        decreases list@.len() - i,
    {
        if str_eq_ignore_case(list[i].as_str(), key) {
            proof {
                assert(lviews[i as int] == list@[i as int]@);
            }
            return true;
        }
        proof {
            assert(lviews[i as int] == list@[i as int]@);
        }
        i += 1;
    }
    false
}

} // verus!
