//! Tiered pattern pre-filter for log lines.
//!
//! A line is checked against one combined matcher built from three layers:
//! the essential tier (always present, never configurable away), one domain
//! preset chosen by name, and the user's custom patterns. A separate exclude
//! matcher acts as a whitelist and always wins over suspicion.
//!
//! The matchers themselves come from the regex crate and stand behind
//! trusted declarations; everything layered on top of them is verified.

use vstd::prelude::*;

use crate::text::str_eq;

verus! {

/// The pattern texts of a list of pattern strings.
pub open spec fn views_of(ps: Seq<String>) -> Seq<Seq<char>> {
    ps.map_values(|p: String| p@)
}

/// Every pattern in the list compiles on its own.
pub open spec fn all_valid(ps: Seq<Seq<char>>) -> bool {
    forall|i: int| 0 <= i < ps.len() ==> #[trigger] pattern_valid(ps[i])
}

/// Position `i` holds the first pattern in the list that does not compile.
pub open spec fn first_invalid_at(ps: Seq<Seq<char>>, i: int) -> bool {
    &&& 0 <= i < ps.len()
    &&& !pattern_valid(ps[i])
    &&& (forall|k: int| 0 <= k < i ==> #[trigger] pattern_valid(ps[k]))
}

/// At least one pattern in the list matches the text.
pub open spec fn matches_any(ps: Seq<Seq<char>>, text: Seq<char>) -> bool {
    exists|i: int| 0 <= i < ps.len() && #[trigger] regex_match(ps[i], text)
}

/// The compiled multi-pattern matcher of the regex crate, declared so it can
/// stand in fields and signatures; its contents are reached only through the
/// names and wrappers below.
#[verifier::external_type_specification]
#[verifier::external_body]
pub struct ExRegexSet(regex::RegexSet);

/// The pattern texts a compiled set was built from.
pub uninterp spec fn set_patterns(s: regex::RegexSet) -> Seq<Seq<char>>;

/// Whether `regex::Regex::new` accepts the pattern text.
pub uninterp spec fn pattern_valid(p: Seq<char>) -> bool;

/// Whether `regex::RegexSet::new` accepts this list of patterns together.
pub uninterp spec fn patterns_compile(ps: Seq<Seq<char>>) -> bool;

/// Whether the pattern matches the text, as the regex crate decides a match.
pub uninterp spec fn regex_match(p: Seq<char>, text: Seq<char>) -> bool;

/// Relies on `regex::Regex::new`: it returns `Ok` exactly when the pattern is
/// a valid expression within the crate's default limits.
#[verifier::external_body]
fn regex_pattern_ok(p: &str) -> (r: bool)
    ensures
        r == pattern_valid(p@),
{
    regex::Regex::new(p).is_ok()
}

/// Relies on `regex::RegexSet::new`: it returns `Ok` exactly when the listed
/// patterns compile together into one set, and the set built holds exactly
/// the listed patterns.
#[verifier::external_body]
fn regex_set_new(patterns: &Vec<String>) -> (r: Option<regex::RegexSet>)
    ensures
        r is Some <==> patterns_compile(views_of(patterns@)),
        r matches Some(s) ==> set_patterns(s) == views_of(patterns@),
{
    match regex::RegexSet::new(patterns) {
        Ok(s) => Some(s),
        Err(_) => None,
    }
}

/// Relies on `regex::RegexSet::is_match`: true if and only if at least one
/// of the patterns in the set matches the haystack.
#[verifier::external_body]
fn regex_set_is_match(set: &regex::RegexSet, text: &str) -> (r: bool)
    ensures
        r == (exists|i: int| 0 <= i < set_patterns(*set).len() && #[trigger] regex_match(set_patterns(*set)[i], text@)),
{
    set.is_match(text)
}

/// The essential tier: cross-domain danger signals, always active.
pub open spec fn essential_pattern_specs() -> Seq<Seq<char>> {
    seq![
        r"(?i)rm\s+-rf"@,
        r"(?i)rmdir\s+/s"@,
        r"(?i)del\s+/[sfq]"@,
        r"(?i)format\s+[a-z]:"@,
        r"(?i)drop\s+(table|database)"@,
        r"(?i)truncate\s+table"@,
        r"(?i)sudo\s+"@,
        r"(?i)runas\s+"@,
        r"(?i)chmod\s+777"@,
        r"(?i)kill\s+-9"@,
        r"(?i)taskkill\s+/f"@,
        r"(?i)shutdown\s+"@,
        r"(?i)reboot"@,
        r"(?i)eval\s*\("@,
        r"(?i)exec\s*\("@,
        r"(?i)curl\s+.*\|\s*(sh|bash)"@,
        r"(?i)docker\s+.*--privileged"@,
        r"(?i)kubectl\s+delete\s+.*--all"@,
        r"(?i)dd\s+if=/dev/(zero|random)"@,
        r"(?i)mkfs\."@,
    ]
}

/// The trading domain preset.
pub open spec fn trading_pattern_specs() -> Seq<Seq<char>> {
    seq![
        r"(?i)order"@,
        r"(?i)buy|sell"@,
        r"(?i)trade|position"@,
        r"(?i)error|exception|failed"@,
        r"(?i)warning|critical|alert"@,
        r"(?i)exposure|leverage|margin"@,
        r"within \d+\s?ms"@,
        r"#\d{3,}"@,
    ]
}

/// The devops domain preset.
pub open spec fn devops_pattern_specs() -> Seq<Seq<char>> {
    seq![
        r"(?i)deploy"@,
        r"(?i)rollback"@,
        r"(?i)scale\s+(up|down)"@,
        r"(?i)restart"@,
        r"(?i)pipeline"@,
        r"(?i)ci/cd"@,
    ]
}

/// The generic domain preset (minimal).
pub open spec fn generic_pattern_specs() -> Seq<Seq<char>> {
    seq![r"(?i)error|exception|failed"@, r"(?i)warning|critical|alert"@]
}

/// The essential tier as pattern strings.
pub fn essential_patterns() -> (r: Vec<String>)
    ensures
        views_of(r@) == essential_pattern_specs(),
{
    let mut v: Vec<String> = Vec::new();
    v.push(String::from_str(r"(?i)rm\s+-rf"));
    v.push(String::from_str(r"(?i)rmdir\s+/s"));
    v.push(String::from_str(r"(?i)del\s+/[sfq]"));
    v.push(String::from_str(r"(?i)format\s+[a-z]:"));
    v.push(String::from_str(r"(?i)drop\s+(table|database)"));
    v.push(String::from_str(r"(?i)truncate\s+table"));
    v.push(String::from_str(r"(?i)sudo\s+"));
    v.push(String::from_str(r"(?i)runas\s+"));
    v.push(String::from_str(r"(?i)chmod\s+777"));
    v.push(String::from_str(r"(?i)kill\s+-9"));
    v.push(String::from_str(r"(?i)taskkill\s+/f"));
    v.push(String::from_str(r"(?i)shutdown\s+"));
    v.push(String::from_str(r"(?i)reboot"));
    v.push(String::from_str(r"(?i)eval\s*\("));
    v.push(String::from_str(r"(?i)exec\s*\("));
    v.push(String::from_str(r"(?i)curl\s+.*\|\s*(sh|bash)"));
    v.push(String::from_str(r"(?i)docker\s+.*--privileged"));
    v.push(String::from_str(r"(?i)kubectl\s+delete\s+.*--all"));
    v.push(String::from_str(r"(?i)dd\s+if=/dev/(zero|random)"));
    v.push(String::from_str(r"(?i)mkfs\."));
    proof {
        assert(views_of(v@) =~= essential_pattern_specs());
    }
    v
}

/// The trading preset as pattern strings.
pub fn trading_patterns() -> (r: Vec<String>)
    ensures
        views_of(r@) == trading_pattern_specs(),
{
    let mut v: Vec<String> = Vec::new();
    v.push(String::from_str(r"(?i)order"));
    v.push(String::from_str(r"(?i)buy|sell"));
    v.push(String::from_str(r"(?i)trade|position"));
    v.push(String::from_str(r"(?i)error|exception|failed"));
    v.push(String::from_str(r"(?i)warning|critical|alert"));
    v.push(String::from_str(r"(?i)exposure|leverage|margin"));
    v.push(String::from_str(r"within \d+\s?ms"));
    v.push(String::from_str(r"#\d{3,}"));
    proof {
        assert(views_of(v@) =~= trading_pattern_specs());
    }
    v
}

/// The devops preset as pattern strings.
pub fn devops_patterns() -> (r: Vec<String>)
    ensures
        views_of(r@) == devops_pattern_specs(),
{
    let mut v: Vec<String> = Vec::new();
    v.push(String::from_str(r"(?i)deploy"));
    v.push(String::from_str(r"(?i)rollback"));
    v.push(String::from_str(r"(?i)scale\s+(up|down)"));
    v.push(String::from_str(r"(?i)restart"));
    v.push(String::from_str(r"(?i)pipeline"));
    v.push(String::from_str(r"(?i)ci/cd"));
    proof {
        assert(views_of(v@) =~= devops_pattern_specs());
    }
    v
}

/// The generic preset as pattern strings.
pub fn generic_patterns() -> (r: Vec<String>)
    ensures
        views_of(r@) == generic_pattern_specs(),
{
    let mut v: Vec<String> = Vec::new();
    v.push(String::from_str(r"(?i)error|exception|failed"));
    v.push(String::from_str(r"(?i)warning|critical|alert"));
    proof {
        assert(views_of(v@) =~= generic_pattern_specs());
    }
    v
}

/// A pattern the filter refuses and why.
#[derive(Debug, Clone)]
pub enum FilterError {
    /// A single pattern that the pattern engine refuses, with its text.
    InvalidPattern(String),
    /// The suspicion patterns do not compile together into one set.
    InvalidPatternSet,
    /// The exclude patterns do not compile together into one set.
    InvalidExcludeSet,
}

/// Filter configuration: a domain preset name, custom suspicion patterns,
/// and exclude (whitelist) patterns.
#[derive(Debug, Clone, Default)]
pub struct FilterConfig {
    /// Domain preset: "trading", "devops", "generic", or none.
    pub domain: Option<String>,
    /// Custom patterns, added to essential + domain.
    pub patterns: Vec<String>,
    /// Exclude patterns: a line matching one is never suspicious.
    pub exclude: Vec<String>,
}

impl FilterConfig {
    /// Every custom and exclude pattern compiles on its own.
    pub open spec fn all_patterns_valid(self) -> bool {
        all_valid(views_of(self.patterns@)) && all_valid(views_of(self.exclude@))
    }

    /// The preset pattern list selected by `domain`; an unrecognized or
    /// absent name falls back to the trading preset.
    pub open spec fn domain_patterns_spec(self) -> Seq<Seq<char>> {
        match self.domain {
            Some(d) => if d@ == "trading"@ {
                trading_pattern_specs()
            } else if d@ == "devops"@ {
                devops_pattern_specs()
            } else if d@ == "generic"@ {
                generic_pattern_specs()
            } else {
                trading_pattern_specs()
            },
            None => trading_pattern_specs(),
        }
    }

    /// Essential, domain-preset, and custom patterns, in that order.
    pub open spec fn all_patterns_spec(self) -> Seq<Seq<char>> {
        essential_pattern_specs() + self.domain_patterns_spec() + views_of(self.patterns@)
    }

    /// Check that every configured pattern compiles on its own, reporting
    /// the first one that does not.
    pub fn validate(&self) -> (r: Result<(), FilterError>)
        ensures
            r is Ok <==> self.all_patterns_valid(),
            r matches Err(e) ==> (e matches FilterError::InvalidPattern(p) && !pattern_valid(p@)),
            r matches Err(e) ==> (e matches FilterError::InvalidPattern(p) && ((exists|i: int| #[trigger] first_invalid_at(views_of(self.patterns@), i) && p@ == views_of(self.patterns@)[i]) || (all_valid(views_of(self.patterns@)) && (exists|i: int| #[trigger] first_invalid_at(views_of(self.exclude@), i) && p@ == views_of(self.exclude@)[i])))),
    {
        let mut i: usize = 0;
        while i < self.patterns.len()
            invariant
                i <= self.patterns.len(),
                forall|k: int| 0 <= k < i ==> #[trigger] pattern_valid(views_of(self.patterns@)[k]),
            decreases self.patterns.len() - i,
        {
            if !regex_pattern_ok(self.patterns[i].as_str()) {
                proof {
                    assert(first_invalid_at(views_of(self.patterns@), i as int));
                }
                return Err(FilterError::InvalidPattern(self.patterns[i].clone()));
            }
            i += 1;
        }
        let mut j: usize = 0;
        while j < self.exclude.len()
            invariant
                j <= self.exclude.len(),
                all_valid(views_of(self.patterns@)),
                forall|k: int| 0 <= k < j ==> #[trigger] pattern_valid(views_of(self.exclude@)[k]),
            decreases self.exclude.len() - j,
        {
            if !regex_pattern_ok(self.exclude[j].as_str()) {
                proof {
                    assert(first_invalid_at(views_of(self.exclude@), j as int));
                    assert(all_valid(views_of(self.patterns@)));
                    assert(views_of(self.exclude@)[j as int] == self.exclude@[j as int]@);
                }
                return Err(FilterError::InvalidPattern(self.exclude[j].clone()));
            }
            j += 1;
        }
        Ok(())
    }

    /// The domain preset patterns chosen by this configuration.
    pub fn domain_patterns(&self) -> (r: Vec<String>)
        ensures
            views_of(r@) == self.domain_patterns_spec(),
    {
        match &self.domain {
            Some(d) => if str_eq(d.as_str(), "trading") {
                trading_patterns()
            } else if str_eq(d.as_str(), "devops") {
                devops_patterns()
            } else if str_eq(d.as_str(), "generic") {
                generic_patterns()
            } else {
                trading_patterns()
            },
            None => trading_patterns(),
        }
    }

    /// Compile essential + domain + custom patterns into one matcher.
    pub fn compile(&self) -> (r: Result<regex::RegexSet, FilterError>)
        ensures
            r is Ok <==> patterns_compile(self.all_patterns_spec()),
            r matches Ok(s) ==> set_patterns(s) == self.all_patterns_spec(),
            r matches Err(e) ==> e matches FilterError::InvalidPatternSet,
    {
        let mut all: Vec<String> = essential_patterns();
        let mut dom: Vec<String> = self.domain_patterns();
        all.append(&mut dom);
        let ghost base = all@;
        let mut k: usize = 0;
        while k < self.patterns.len()
            invariant
                k <= self.patterns.len(),
                all@ == base + self.patterns@.take(k as int),
            decreases self.patterns.len() - k,
        {
            all.push(self.patterns[k].clone());
            proof {
                assert((base + self.patterns@.take(k as int)).push(self.patterns@[k as int]) =~= base
                    + self.patterns@.take(k as int + 1));
            }
            k += 1;
        }
        proof {
            assert(self.patterns@.take(self.patterns@.len() as int) =~= self.patterns@);
            assert(views_of(all@) =~= self.all_patterns_spec());
        }
        match regex_set_new(&all) {
            Some(s) => Ok(s),
            None => Err(FilterError::InvalidPatternSet),
        }
    }

    /// Compile the exclude patterns into one matcher, or `None` when no
    /// exclude pattern is configured.
    pub fn compile_excludes(&self) -> (r: Result<Option<regex::RegexSet>, FilterError>)
        ensures
            r is Ok <==> (self.exclude@.len() == 0 || patterns_compile(views_of(self.exclude@))),
            r matches Ok(o) ==> (o is Some <==> self.exclude@.len() > 0),
            r matches Ok(o) ==> (o matches Some(s) ==> set_patterns(s) == views_of(self.exclude@)),
            r matches Err(e) ==> (e matches FilterError::InvalidExcludeSet && self.exclude@.len()
                > 0),
    {
        if self.exclude.len() == 0 {
            return Ok(None);
        }
        match regex_set_new(&self.exclude) {
            Some(s) => Ok(Some(s)),
            None => Err(FilterError::InvalidExcludeSet),
        }
    }
}

/// A compiled filter: one suspicion matcher and an optional exclude matcher.
#[derive(Debug)]
pub struct Filter {
    patterns: regex::RegexSet,
    excludes: Option<regex::RegexSet>,
}

impl Filter {
    /// The pattern texts of the suspicion matcher.
    pub closed spec fn suspicion_patterns(self) -> Seq<Seq<char>> {
        set_patterns(self.patterns)
    }

    /// The pattern texts of the exclude matcher, if one is configured.
    pub closed spec fn exclude_patterns(self) -> Option<Seq<Seq<char>>> {
        match self.excludes {
            Some(e) => Some(set_patterns(e)),
            None => None,
        }
    }

    /// The filter is the compiled form of the configuration.
    pub open spec fn compiled_from(self, config: FilterConfig) -> bool {
        &&& self.suspicion_patterns() == config.all_patterns_spec()
        &&& self.exclude_patterns() == (if config.exclude@.len() == 0 {
            None::<Seq<Seq<char>>>
        } else {
            Some(views_of(config.exclude@))
        })
    }

    /// The line is excluded by the whitelist.
    pub open spec fn excluded_spec(self, line: Seq<char>) -> bool {
        match self.exclude_patterns() {
            Some(ex) => matches_any(ex, line),
            None => false,
        }
    }

    /// The line counts as suspicious: not whitelisted, and matched by at
    /// least one essential, domain, or custom pattern.
    pub open spec fn suspicious_spec(self, line: Seq<char>) -> bool {
        !self.excluded_spec(line) && matches_any(self.suspicion_patterns(), line)
    }

    /// Compile a configuration into a filter. Succeeds exactly when the
    /// combined suspicion patterns compile together and, where excludes are
    /// configured, the excludes do too.
    pub fn new(config: &FilterConfig) -> (r: Result<Filter, FilterError>)
        ensures
            r is Ok <==> patterns_compile(config.all_patterns_spec()) && (config.exclude@.len()
                == 0 || patterns_compile(views_of(config.exclude@))),
            r matches Ok(f) ==> f.compiled_from(*config),
            !patterns_compile(config.all_patterns_spec()) ==> (r matches Err(e) && e matches
                FilterError::InvalidPatternSet),
            patterns_compile(config.all_patterns_spec()) && config.exclude@.len() > 0
                && !patterns_compile(views_of(config.exclude@)) ==> (r matches Err(e) && e matches
                FilterError::InvalidExcludeSet),
    {
        let patterns = match config.compile() {
            Ok(s) => s,
            Err(e) => {
                return Err(e);
            },
        };
        let excludes = match config.compile_excludes() {
            Ok(o) => o,
            Err(e) => {
                return Err(e);
            },
        };
        Ok(Filter { patterns, excludes })
    }

    /// Check one log line: excluded lines are never suspicious; otherwise
    /// the line is suspicious exactly when some configured pattern matches.
    pub fn is_suspicious(&self, log: &str) -> (r: bool)
        ensures
            r == self.suspicious_spec(log@),
    {
        match &self.excludes {
            Some(excludes) => {
                if regex_set_is_match(excludes, log) {
                    return false;
                }
            },
            None => {},
        }
        regex_set_is_match(&self.patterns, log)
    }
}

/// The essential tier cannot be configured away: whatever the domain preset
/// and custom patterns, a line that an essential pattern matches and that no
/// exclude pattern whitelists is suspicious.
pub proof fn lemma_essential_always_active(f: Filter, config: FilterConfig, line: Seq<char>)
    requires
        f.compiled_from(config),
        matches_any(essential_pattern_specs(), line),
        !f.excluded_spec(line),
    ensures
        f.suspicious_spec(line),
{
    let i = choose|i: int|
        0 <= i < essential_pattern_specs().len() && #[trigger] regex_match(
            essential_pattern_specs()[i],
            line,
        );
    assert(f.suspicion_patterns()[i] == essential_pattern_specs()[i]);
    assert(regex_match(f.suspicion_patterns()[i], line));
}

/// The whitelist always wins: a line matched by an exclude pattern is never
/// suspicious, whatever the other tiers would say about it.
pub proof fn lemma_exclude_precedence(f: Filter, line: Seq<char>)
    requires
        f.exclude_patterns() matches Some(ex) && matches_any(ex, line),
    ensures
        !f.suspicious_spec(line),
{
}

} // verus!
