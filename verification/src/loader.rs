//! The loader's discovery rule: which filesystem pattern names the worker
//! executables for this platform.
//!
//! The pattern is expanded against the filesystem by the caller (matched
//! case-sensitively, with no literal-separator or leading-dot requirement),
//! once at startup; each match is recorded and supervised.

use vstd::prelude::*;

verus! {

/// The discovery pattern for worker executables under `base` on the given
/// platform: `<base>/*-<os>-<arch>`.
pub fn discovery_pattern(base: &str, os: &str, arch: &str) -> (pattern: String)
    ensures
        pattern@ == base@ + "/*-"@ + os@ + "-"@ + arch@,
{
    let mut pattern = String::from_str(base);
    pattern.append("/*-");
    pattern.append(os);
    pattern.append("-");
    pattern.append(arch);
    proof {
        assert(pattern@ =~= base@ + "/*-"@ + os@ + "-"@ + arch@);
    }
    pattern
}

/// How the discovery pattern is matched against the filesystem.
#[derive(Debug, PartialEq, Eq, Structural, Clone, Copy)]
pub struct MatchRule {
    pub case_sensitive: bool,
    pub require_literal_separator: bool,
    pub require_literal_leading_dot: bool,
}

/// The discovery match rule: case-sensitive, with no literal-separator and
/// no leading-dot requirement.
pub fn discovery_match_rule() -> (rule: MatchRule)
    ensures
        rule.case_sensitive,
        !rule.require_literal_separator,
        !rule.require_literal_leading_dot,
{
    MatchRule {
        case_sensitive: true,
        require_literal_separator: false,
        require_literal_leading_dot: false,
    }
}

} // verus!
