//! The library's semantic-version model. Version strings coming from the
//! package index or from the probed runtime are parsed at the boundary into
//! `SemVer`, which holds as plain values everything the resolution logic
//! reads: the numeric triple and the prerelease identifier.

use vstd::prelude::*;
use vstd::string::StringExecFns;

verus! {

/// A parsed semantic version. Immutable once parsed.
#[derive(Debug)]
pub struct SemVer {
    pub major: u64,
    pub minor: u64,
    pub patch: u64,
    /// The prerelease identifier; empty when the version has none.
    pub pre: String,
}

impl SemVer {
    /// Whether this version carries a prerelease tag.
    pub open spec fn spec_has_prerelease(self) -> bool {
        self.pre@.len() > 0
    }
}

impl Clone for SemVer {
    fn clone(&self) -> (r: Self)
        ensures
            r == *self,
    {
        SemVer { major: self.major, minor: self.minor, patch: self.patch, pre: self.pre.clone() }
    }
}

/// What `semver::Version::parse` makes of a string: `None` when the string is
/// not a strict semantic version, else the numeric triple and the prerelease
/// identifier (empty when absent). Build metadata is not read by this library.
pub uninterp spec fn parsed_semver(s: Seq<char>) -> Option<(u64, u64, u64, Seq<char>)>;

/// Relies on semver::Version::parse: strict SemVer 2.0.0 parsing whose result
/// is a function of the input characters alone; `Version.pre.as_str()` is the
/// prerelease identifier and is empty when the version carries none.
#[verifier::external_body]
pub(crate) fn parse_semver(s: &str) -> (r: Option<SemVer>)
    ensures
        match r {
            Some(v) => parsed_semver(s@) == Some((v.major, v.minor, v.patch, v.pre@)),
            None => parsed_semver(s@) is None,
        },
{
    match ::semver::Version::parse(s) {
        Ok(v) => Some(
            SemVer {
                major: v.major,
                minor: v.minor,
                patch: v.patch,
                pre: v.pre.as_str().to_string(),
            },
        ),
        Err(_) => None,
    }
}

/// The decimal digit character for a value below ten.
pub open spec fn spec_digit_char(d: int) -> char {
    if d == 0 {
        '0'
    } else if d == 1 {
        '1'
    } else if d == 2 {
        '2'
    } else if d == 3 {
        '3'
    } else if d == 4 {
        '4'
    } else if d == 5 {
        '5'
    } else if d == 6 {
        '6'
    } else if d == 7 {
        '7'
    } else if d == 8 {
        '8'
    } else {
        '9'
    }
}

/// The decimal rendering of a natural number, most significant digit first,
/// with no leading zeros (a lone zero renders as "0").
pub open spec fn spec_u64_digits(n: nat) -> Seq<char>
    decreases n,
{
    if n < 10 {
        seq![spec_digit_char(n as int)]
    } else {
        spec_u64_digits(n / 10).push(spec_digit_char((n % 10) as int))
    }
}

fn digit_str(d: u64) -> (r: &'static str)
    requires
        d < 10,
    ensures
        r@ =~= seq![spec_digit_char(d as int)],
{
    proof {
        reveal_strlit("0");
        reveal_strlit("1");
        reveal_strlit("2");
        reveal_strlit("3");
        reveal_strlit("4");
        reveal_strlit("5");
        reveal_strlit("6");
        reveal_strlit("7");
        reveal_strlit("8");
        reveal_strlit("9");
    }
    if d == 0 {
        "0"
    } else if d == 1 {
        "1"
    } else if d == 2 {
        "2"
    } else if d == 3 {
        "3"
    } else if d == 4 {
        "4"
    } else if d == 5 {
        "5"
    } else if d == 6 {
        "6"
    } else if d == 7 {
        "7"
    } else if d == 8 {
        "8"
    } else {
        "9"
    }
}

/// Renders a number in decimal.
pub fn u64_string(n: u64) -> (r: String)
    ensures
        r@ == spec_u64_digits(n as nat),
    decreases n,
{
    if n < 10 {
        String::from_str(digit_str(n))
    } else {
        let prefix = u64_string(n / 10);
        let r = prefix.concat(digit_str(n % 10));
        proof {
            assert(spec_u64_digits((n / 10) as nat).push(spec_digit_char((n % 10) as int))
                =~= spec_u64_digits((n / 10) as nat) + seq![spec_digit_char((n % 10) as int)]);
        }
        r
    }
}

/// The rendering of a parsed version: the dotted numeric triple, then the
/// prerelease identifier after a hyphen when one is present.
pub open spec fn spec_version_string(v: SemVer) -> Seq<char> {
    spec_u64_digits(v.major as nat) + "."@ + spec_u64_digits(v.minor as nat) + "."@
        + spec_u64_digits(v.patch as nat) + if v.spec_has_prerelease() {
        "-"@ + v.pre@
    } else {
        Seq::<char>::empty()
    }
}

/// Renders a parsed version back to text, for messages shown to the user.
pub fn version_string(v: &SemVer) -> (r: String)
    ensures
        r@ == spec_version_string(*v),
{
    let mut s = u64_string(v.major);
    s.append(".");
    let minor = u64_string(v.minor);
    s.append(minor.as_str());
    s.append(".");
    let patch = u64_string(v.patch);
    s.append(patch.as_str());
    if !v.pre.as_str().is_empty() {
        s.append("-");
        s.append(v.pre.as_str());
    }
    proof {
        assert(s@ =~= spec_version_string(*v));
    }
    s
}

} // verus!
