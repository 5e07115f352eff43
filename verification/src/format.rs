use vstd::prelude::*;
use vstd::string::StrSliceExecFns;

verus! {

/// The three file formats an explicit configuration file may use, chosen by
/// the path's suffix.
#[derive(Debug, Clone, Copy, PartialEq, Eq, Structural)]
pub enum FileFormat {
    Json,
    Yaml,
    Toml,
}

/// `s` ends with `suffix` (an exact, case-sensitive suffix match).
pub open spec fn ends_with_spec(s: Seq<char>, suffix: Seq<char>) -> bool {
    suffix.len() <= s.len() && s.subrange(s.len() - suffix.len(), s.len() as int) == suffix
}

/// Which format a path selects: `.json`, `.yaml` or `.toml`, else none.
pub open spec fn format_of_spec(path: Seq<char>) -> Option<FileFormat> {
    if ends_with_spec(path, ".json"@) {
        Some(FileFormat::Json)
    } else if ends_with_spec(path, ".yaml"@) {
        Some(FileFormat::Yaml)
    } else if ends_with_spec(path, ".toml"@) {
        Some(FileFormat::Toml)
    } else {
        None
    }
}

/// Exact, case-sensitive suffix test on character sequences.
pub fn str_ends_with(s: &str, suffix: &str) -> (r: bool)
    ensures
        r == ends_with_spec(s@, suffix@),
{
    let n = s.unicode_len();
    let m = suffix.unicode_len();
    if m > n {
        return false;
    }
    let mut i: usize = 0;
    while i < m
        invariant
            n == s@.len(),
            m == suffix@.len(),
            m <= n,
            i <= m,
            forall|j: int| 0 <= j < i ==> s@[n - m + j] == suffix@[j],
        decreases m - i,
    {
        let cs = s.get_char(n - m + i);
        let cf = suffix.get_char(i);
        if cs != cf {
            proof {
                let sub = s@.subrange(s@.len() - suffix@.len(), s@.len() as int);
                assert(sub == suffix@ ==> sub[i as int] == suffix@[i as int]);
                assert(sub[i as int] == s@[n - m + i]);
            }
            return false;
        }
        i += 1;
    }
    proof {
        let sub = s@.subrange(s@.len() - suffix@.len(), s@.len() as int);
        assert(sub =~= suffix@);
    }
    true
}

/// Dispatch on the path's suffix, exactly as [`format_of_spec`] says.
pub fn format_of(path: &str) -> (r: Option<FileFormat>)
    ensures
        r == format_of_spec(path@),
{
    if str_ends_with(path, ".json") {
        Some(FileFormat::Json)
    } else if str_ends_with(path, ".yaml") {
        Some(FileFormat::Yaml)
    } else if str_ends_with(path, ".toml") {
        Some(FileFormat::Toml)
    } else {
        None
    }
}

} // verus!
