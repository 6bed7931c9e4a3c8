//! The build-variant scanner's naming convention. A shipped target-framework
//! variant is encoded as a directory name beginning with "net" followed by at
//! least one decimal digit; the leading digit run is the runtime major
//! version the variant was built for ("net8" and "net8.0-windows" both encode
//! major version eight). Directories that do not match are silently skipped.
//! The convention lives entirely in this module.

use vstd::prelude::*;
use vstd::seq_lib::*;

verus! {

/// One shipped build variant: the runtime major tier it encodes and the
/// directory name it was found under.
#[derive(Debug)]
pub struct Variant {
    pub major: u64,
    pub dir_name: String,
}

impl View for Variant {
    type V = (int, Seq<char>);

    open spec fn view(&self) -> (int, Seq<char>) {
        (self.major as int, self.dir_name@)
    }
}

impl DeepView for Variant {
    type V = (int, Seq<char>);

    open spec fn deep_view(&self) -> (int, Seq<char>) {
        self@
    }
}

impl Clone for Variant {
    fn clone(&self) -> (r: Self)
        ensures
            r == *self,
    {
        Variant { major: self.major, dir_name: self.dir_name.clone() }
    }
}

/// Whether a character is a decimal digit.
pub open spec fn spec_is_digit(c: char) -> bool {
    '0' <= c && c <= '9'
}

/// The numeric value of a decimal digit character.
pub open spec fn spec_digit_val(c: char) -> int {
    c as int - '0' as int
}

/// The length of the leading run of decimal digits.
pub open spec fn spec_digit_run(s: Seq<char>) -> nat
    decreases s.len(),
{
    if s.len() > 0 && spec_is_digit(s[0]) {
        (1 + spec_digit_run(s.drop_first())) as nat
    } else {
        0
    }
}

/// The value of a sequence of decimal digit characters, most significant
/// digit first.
pub open spec fn spec_digits_val(s: Seq<char>) -> int
    decreases s.len(),
{
    if s.len() == 0 {
        0
    } else {
        spec_digits_val(s.drop_last()) * 10 + spec_digit_val(s.last())
    }
}

/// The major version a directory name encodes: the name must begin with "net"
/// followed by at least one decimal digit, and the value is that of the whole
/// leading digit run; whatever follows the run is ignored. Any other name
/// encodes no variant.
pub open spec fn spec_variant_major(name: Seq<char>) -> Option<int> {
    if name.len() > 3 && name.subrange(0, 3) == "net"@ && spec_is_digit(name[3]) {
        Some(
            spec_digits_val(
                name.subrange(
                    3,
                    3 + spec_digit_run(name.subrange(3, name.len() as int)) as int,
                ),
            ),
        )
    } else {
        None
    }
}

/// The leading digit run is exactly the part scanned up to the first
/// non-digit.
proof fn lemma_digit_run_exact(s: Seq<char>, k: int)
    requires
        0 <= k <= s.len(),
        forall|i: int| 0 <= i < k ==> spec_is_digit(#[trigger] s[i]),
        k == s.len() || !spec_is_digit(s[k]),
    ensures
        spec_digit_run(s) == k,
    decreases s.len(),
{
    if k == 0 {
    } else {
        assert(spec_is_digit(s[0]));
        lemma_digit_run_exact(s.drop_first(), k - 1);
    }
}

/// Extending a digit sequence by one digit multiplies its value by ten and
/// adds the digit.
proof fn lemma_digits_val_push(s: Seq<char>, c: char)
    ensures
        spec_digits_val(s.push(c)) == spec_digits_val(s) * 10 + spec_digit_val(c),
{
    assert(s.push(c).drop_last() =~= s);
    assert(s.push(c).last() == c);
}

fn is_digit(c: char) -> (r: bool)
    ensures
        r == spec_is_digit(c),
{
    '0' <= c && c <= '9'
}

fn digit_val(c: char) -> (r: u64)
    requires
        spec_is_digit(c),
    ensures
        r as int == spec_digit_val(c),
{
    (c as u32 - '0' as u32) as u64
}

/// Reads the major version out of one directory name, if the name matches the
/// variant convention and its digit run's value fits a u64.
pub fn variant_major_of_name(name: &str) -> (r: Option<u64>)
    ensures
        match r {
            Some(m) => spec_variant_major(name@) == Some(m as int),
            None => match spec_variant_major(name@) {
                Some(v) => v > u64::MAX,
                None => true,
            },
        },
{
    let n = name.unicode_len();
    if n < 4 {
        return None;
    }
    proof {
        reveal_strlit("net");
    }
    if !(name.get_char(0) == 'n' && name.get_char(1) == 'e' && name.get_char(2) == 't') {
        proof {
            assert(name@.subrange(0, 3) != "net"@) by {
                if name@.subrange(0, 3) == "net"@ {
                    assert(name@.subrange(0, 3)[0] == 'n');
                    assert(name@.subrange(0, 3)[1] == 'e');
                    assert(name@.subrange(0, 3)[2] == 't');
                }
            }
        }
        return None;
    }
    proof {
        assert(name@.subrange(0, 3) =~= "net"@);
    }
    if !is_digit(name.get_char(3)) {
        return None;
    }

    let ghost suffix = name@.subrange(3, name@.len() as int);
    let mut i: usize = 3;
    let mut val: u64 = 0;
    let mut overflowed: bool = false;
    while i < n && is_digit(name.get_char(i))
        invariant
            3 <= i <= n,
            n == name@.len(),
            n >= 4,
            suffix == name@.subrange(3, n as int),
            forall|j: int| 3 <= j < i ==> spec_is_digit(#[trigger] name@[j]),
            !overflowed ==> val as int == spec_digits_val(name@.subrange(3, i as int)),
            overflowed ==> spec_digits_val(name@.subrange(3, i as int)) > u64::MAX,
            forall|j: int| 3 <= j < i ==> spec_is_digit(#[trigger] name@.subrange(3, i as int)[j - 3]),
        decreases n - i,
    {
        let c = name.get_char(i);
        let d = digit_val(c);
        proof {
            assert(name@.subrange(3, i + 1 as int).drop_last() =~= name@.subrange(3, i as int));
            lemma_digits_val_push(name@.subrange(3, i as int), c);
            assert(name@.subrange(3, i as int).push(c) =~= name@.subrange(3, i + 1 as int));
        }
        if !overflowed {
            match val.checked_mul(10) {
                Some(v10) => {
                    match v10.checked_add(d) {
                        Some(v) => {
                            val = v;
                        },
                        None => {
                            overflowed = true;
                        },
                    }
                },
                None => {
                    overflowed = true;
                },
            }
        } else {
            proof {
                assert(spec_digit_val(c) >= 0);
                assert(spec_digits_val(name@.subrange(3, i as int)) * 10 + spec_digit_val(c)
                    > u64::MAX) by (nonlinear_arith)
                    requires
                        spec_digits_val(name@.subrange(3, i as int)) > u64::MAX,
                        spec_digit_val(c) >= 0,
                ;
            }
        }
        i = i + 1;
    }

    proof {
        lemma_digit_run_exact(suffix, i - 3);
        assert(3 + spec_digit_run(suffix) as int == i as int);
        assert(name@.subrange(3, 3 + spec_digit_run(suffix) as int) == name@.subrange(
            3,
            i as int,
        ));
    }

    if overflowed {
        None
    } else {
        Some(val)
    }
}

/// The variants encoded by a list of directory names, in the order the names
/// were listed; names that do not match the convention contribute nothing.
/// A run whose value does not fit a u64 is skipped like a non-matching name.
pub open spec fn spec_scan_variants(names: Seq<Seq<char>>) -> Seq<(int, Seq<char>)>
    decreases names.len(),
{
    if names.len() == 0 {
        Seq::empty()
    } else {
        let rest = spec_scan_variants(names.drop_last());
        match spec_variant_major(names.last()) {
            Some(m) => if m <= u64::MAX {
                rest.push((m, names.last()))
            } else {
                rest
            },
            None => rest,
        }
    }
}

/// Scans a directory listing for the build variants it encodes.
pub fn scan_variants(names: &Vec<String>) -> (r: Vec<Variant>)
    ensures
        r.deep_view() == spec_scan_variants(names.deep_view()),
{
    let mut r: Vec<Variant> = Vec::new();
    let mut i: usize = 0;
    while i < names.len()
        invariant
            0 <= i <= names@.len(),
            r.deep_view() == spec_scan_variants(names.deep_view().take(i as int)),
        decreases names@.len() - i,
    {
        proof {
            assert(names.deep_view().take(i + 1 as int).drop_last() =~= names.deep_view().take(
                i as int,
            ));
            assert(names.deep_view().take(i + 1 as int).last() == names@[i as int]@);
        }
        match variant_major_of_name(names[i].as_str()) {
            Some(m) => {
                r.push(Variant { major: m, dir_name: names[i].clone() });
                proof {
                    assert(r.deep_view() =~= spec_scan_variants(
                        names.deep_view().take(i + 1 as int),
                    ));
                }
            },
            None => {
                proof {
                    assert(r.deep_view() =~= spec_scan_variants(
                        names.deep_view().take(i + 1 as int),
                    ));
                }
            },
        }
        i = i + 1;
    }
    proof {
        assert(names.deep_view().take(names@.len() as int) =~= names.deep_view());
    }
    r
}

} // verus!
