//! The runtime probe's decision logic. The probe itself runs the fixed
//! runtime executable with a version-query flag; this module decides, from
//! the exit status and the captured output, which runtime version is
//! installed: the probe succeeds when the executable exited zero and its
//! trimmed standard output parses as a semantic version.

use vstd::prelude::*;

use crate::error::FsacError;
use crate::version::{parse_semver, parsed_semver, SemVer};

verus! {

/// Whether a character is trimmed from the probe's output.
pub open spec fn spec_is_space(c: char) -> bool {
    c == ' ' || c == '\n' || c == '\r' || c == '\t'
}

/// The sequence without its leading run of whitespace.
pub open spec fn spec_trim_start(s: Seq<char>) -> Seq<char>
    decreases s.len(),
{
    if s.len() > 0 && spec_is_space(s[0]) {
        spec_trim_start(s.drop_first())
    } else {
        s
    }
}

/// The sequence without its trailing run of whitespace.
pub open spec fn spec_trim_end(s: Seq<char>) -> Seq<char>
    decreases s.len(),
{
    if s.len() > 0 && spec_is_space(s.last()) {
        spec_trim_end(s.drop_last())
    } else {
        s
    }
}

/// The sequence without leading and trailing whitespace.
pub open spec fn spec_trim(s: Seq<char>) -> Seq<char> {
    spec_trim_end(spec_trim_start(s))
}

proof fn lemma_trim_start_subrange(s: Seq<char>, i: int)
    requires
        0 <= i <= s.len(),
        forall|j: int| 0 <= j < i ==> spec_is_space(#[trigger] s[j]),
        i == s.len() || !spec_is_space(s[i]),
    ensures
        spec_trim_start(s) == s.subrange(i, s.len() as int),
    decreases i,
{
    if i == 0 {
        assert(s.subrange(0, s.len() as int) =~= s);
    } else {
        assert(spec_is_space(s[0]));
        lemma_trim_start_subrange(s.drop_first(), i - 1);
        assert(s.drop_first().subrange(i - 1, s.drop_first().len() as int) =~= s.subrange(
            i,
            s.len() as int,
        ));
    }
}

proof fn lemma_trim_end_subrange(s: Seq<char>, j: int)
    requires
        0 <= j <= s.len(),
        forall|k: int| j <= k < s.len() ==> spec_is_space(#[trigger] s[k]),
        j == 0 || !spec_is_space(s[j - 1]),
    ensures
        spec_trim_end(s) == s.subrange(0, j),
    decreases s.len(),
{
    if j == s.len() {
        assert(s.subrange(0, j) =~= s);
    } else {
        assert(spec_is_space(s.last()));
        lemma_trim_end_subrange(s.drop_last(), j);
        assert(s.drop_last().subrange(0, j) =~= s.subrange(0, j));
    }
}

fn is_space(c: char) -> (r: bool)
    ensures
        r == spec_is_space(c),
{
    c == ' ' || c == '\n' || c == '\r' || c == '\t'
}

/// Strips leading and trailing whitespace from the probe's raw output.
pub fn trim_output(s: &str) -> (r: &str)
    ensures
        r@ == spec_trim(s@),
{
    let n = s.unicode_len();
    let mut start: usize = 0;
    while start < n && is_space(s.get_char(start))
        invariant
            0 <= start <= n,
            n == s@.len(),
            forall|j: int| 0 <= j < start ==> spec_is_space(#[trigger] s@[j]),
        decreases n - start,
    {
        start = start + 1;
    }
    let mut end: usize = n;
    while end > start && is_space(s.get_char(end - 1))
        invariant
            start <= end <= n,
            n == s@.len(),
            forall|j: int| end <= j < n ==> spec_is_space(#[trigger] s@[j]),
        decreases end,
    {
        end = end - 1;
    }
    proof {
        lemma_trim_start_subrange(s@, start as int);
        let mid = s@.subrange(start as int, n as int);
        assert forall|k: int| end - start <= k < mid.len() implies spec_is_space(
            #[trigger] mid[k],
        ) by {
            assert(mid[k] == s@[k + start]);
        }
        lemma_trim_end_subrange(mid, end - start);
        assert(mid.subrange(0, end - start) =~= s@.subrange(start as int, end as int));
    }
    s.substring_char(start, end)
}

/// Decides the installed runtime version from the probe's outcome. Succeeds
/// exactly when the executable exited zero and its trimmed standard output is
/// a semantic version; a non-zero or missing exit status is an execution
/// failure carrying the standard error text, and unparseable output is a
/// parse failure carrying the trimmed output.
pub fn parse_runtime_version(status: Option<i32>, stdout: &str, stderr: &str) -> (r: Result<
    SemVer,
    FsacError,
>)
    ensures
        match r {
            Ok(v) => status == Some(0i32) && parsed_semver(spec_trim(stdout@)) == Some(
                (v.major, v.minor, v.patch, v.pre@),
            ),
            Err(e) => match e {
                FsacError::Execution(msg) => status != Some(0i32) && msg@ == stderr@,
                FsacError::Parse(msg) => status == Some(0i32) && parsed_semver(spec_trim(stdout@))
                    is None && msg@ == spec_trim(stdout@),
                _ => false,
            },
        },
{
    match status {
        Some(code) => {
            if code == 0 {
                let trimmed = trim_output(stdout);
                match parse_semver(trimmed) {
                    Some(v) => Ok(v),
                    None => Err(FsacError::Parse(trimmed.to_owned())),
                }
            } else {
                Err(FsacError::Execution(stderr.to_owned()))
            }
        },
        None => Err(FsacError::Execution(stderr.to_owned())),
    }
}

} // verus!
