//! Protocol versions.
//!
//! A version is a `major.minor.patch` triple with a total order. The
//! wire form is a dot-separated string of up to three base-ten
//! components; missing components default to zero, and anything after a
//! third component is ignored. The version in force gates the
//! authentication scheme: the salted-token scheme needs 1.13.0 or later.

use vstd::prelude::*;
use vstd::string::StringExecFns;

use crate::numeral::{dec_of, digit_val, digits_val, is_digit, u64_to_string};

verus! {

/// A protocol version triple: major, minor, patch.
#[derive(Debug, Clone, Copy, PartialEq, Eq, Structural)]
pub struct Version(pub u8, pub u8, pub u8);

/// The index of the first `.` in `s` at or after `from`, or the length
/// of `s` when there is none.
pub open spec fn first_dot_from(s: Seq<char>, from: int) -> int
    recommends
        0 <= from <= s.len(),
    decreases s.len() - from,
{
    if from < 0 || from >= s.len() {
        s.len() as int
    } else if s[from] == '.' {
        from
    } else {
        first_dot_from(s, from + 1)
    }
}

/// Whether `s[lo..hi]` is a usable version component: non-empty, all
/// decimal digits, and with a value that fits the component type.
pub open spec fn component_ok(s: Seq<char>, lo: int, hi: int) -> bool {
    &&& lo < hi <= s.len()
    &&& forall|i: int| lo <= i < hi ==> is_digit(#[trigger] s[i])
    &&& digits_val(s.subrange(lo, hi)) <= 255
}

/// Whether `s` is a version string the parser accepts: one to three
/// dot-separated decimal components (text after a third component is
/// ignored, as version strings on the wire allow).
pub open spec fn valid_version_chars(s: Seq<char>) -> bool {
    let i = first_dot_from(s, 0);
    &&& component_ok(s, 0, i)
    &&& (i < s.len() ==> {
        let j = first_dot_from(s, i + 1);
        &&& component_ok(s, i + 1, j)
        &&& (j < s.len() ==> component_ok(s, j + 1, first_dot_from(s, j + 1)))
    })
}

/// The triple a version string denotes: the values of its first, second
/// and third components, with zero for each missing component.
pub open spec fn spec_version_of(s: Seq<char>) -> (nat, nat, nat) {
    let i = first_dot_from(s, 0);
    let major = digits_val(s.subrange(0, i));
    if i == s.len() {
        (major, 0, 0)
    } else {
        let j = first_dot_from(s, i + 1);
        let minor = digits_val(s.subrange(i + 1, j));
        if j == s.len() {
            (major, minor, 0)
        } else {
            (major, minor, digits_val(s.subrange(j + 1, first_dot_from(s, j + 1))))
        }
    }
}

/// The wire form of a version: the three components in base ten, joined
/// by dots.
pub open spec fn version_chars(v: Version) -> Seq<char> {
    dec_of(v.0 as nat) + seq!['.'] + dec_of(v.1 as nat) + seq!['.'] + dec_of(v.2 as nat)
}

/// Lexicographic order on version triples.
pub open spec fn version_le(a: Version, b: Version) -> bool {
    ||| a.0 < b.0
    ||| (a.0 == b.0 && a.1 < b.1)
    ||| (a.0 == b.0 && a.1 == b.1 && a.2 <= b.2)
}

/// Finds the first `.` at or after `from`, or the end of the string.
pub(crate) fn find_dot(s: &str, from: usize, len: usize) -> (i: usize)
    requires
        from <= len == s@.len(),
    ensures
        i == first_dot_from(s@, from as int),
        from <= i <= len,
    decreases len - from,
{
    if from >= len {
        len
    } else {
        let c = s.get_char(from);
        if c == '.' {
            from
        } else {
            find_dot(s, from + 1, len)
        }
    }
}

/// Reads the decimal component `s[lo..hi]`.
pub(crate) fn parse_component(s: &str, lo: usize, hi: usize) -> (v: u8)
    requires
        hi <= s@.len(),
        component_ok(s@, lo as int, hi as int),
    ensures
        v as nat == digits_val(s@.subrange(lo as int, hi as int)),
{
    let ghost whole = s@.subrange(lo as int, hi as int);
    let mut acc: u8 = 0;
    let mut idx: usize = lo;
    proof {
        assert(whole.take(0) =~= Seq::<char>::empty());
    }
    while idx < hi
        invariant
            lo <= idx <= hi <= s@.len(),
            component_ok(s@, lo as int, hi as int),
            whole == s@.subrange(lo as int, hi as int),
            acc as nat == digits_val(whole.take(idx - lo)),
        decreases hi - idx,
    {
        let c = s.get_char(idx);
        proof {
            assert(whole[idx - lo] == s@[idx as int]);
            assert(is_digit(c));
            assert(whole.take(idx - lo + 1).drop_last() =~= whole.take(idx - lo));
            assert(digits_val(whole.take(idx - lo + 1)) == digits_val(whole.take(idx - lo)) * 10
                + digit_val(c));
            crate::numeral::lemma_digits_val_prefix(whole, idx - lo + 1);
            assert(digits_val(whole.take(idx - lo + 1)) <= 255) by {
                assert(whole.take(whole.len() as int) =~= whole);
            }
        }
        let d: u8 = ((c as u32) - 48) as u8;
        acc = acc * 10 + d;
        idx += 1;
    }
    proof {
        assert(whole.take(hi - lo) =~= whole);
    }
    acc
}

/// Reads a dot-separated version string as a triple, with zero for each
/// missing component.
pub(crate) fn parse_version_triple(s: &str) -> (t: (u8, u8, u8))
    requires
        valid_version_chars(s@),
    ensures
        (t.0 as nat, t.1 as nat, t.2 as nat) == spec_version_of(s@),
{
    let len = s.unicode_len();
    let i = find_dot(s, 0, len);
    let major = parse_component(s, 0, i);
    if i == len {
        (major, 0, 0)
    } else {
        let j = find_dot(s, i + 1, len);
        let minor = parse_component(s, i + 1, j);
        if j == len {
            (major, minor, 0)
        } else {
            let k = find_dot(s, j + 1, len);
            let patch = parse_component(s, j + 1, k);
            (major, minor, patch)
        }
    }
}

impl Version {
    /// Reads a version from its dot-separated wire form.
    pub fn from(s: &str) -> (v: Version)
        requires
            valid_version_chars(s@),
        ensures
            (v.0 as nat, v.1 as nat, v.2 as nat) == spec_version_of(s@),
    {
        let t = parse_version_triple(s);
        Version(t.0, t.1, t.2)
    }

    /// Renders the version in its dot-separated wire form.
    pub fn to_string(&self) -> (r: String)
        ensures
            r@ == version_chars(*self),
    {
        let mut out = u64_to_string(self.0 as u64);
        out.append(".");
        out.append(u64_to_string(self.1 as u64).as_str());
        out.append(".");
        out.append(u64_to_string(self.2 as u64).as_str());
        proof {
            reveal_strlit(".");
            assert(out@ =~= version_chars(*self));
        }
        out
    }

    /// Whether this version is at least `other` in the lexicographic
    /// order on triples.
    pub fn at_least(&self, other: &Version) -> (r: bool)
        ensures
            r == version_le(*other, *self),
    {
        if self.0 != other.0 {
            self.0 > other.0
        } else if self.1 != other.1 {
            self.1 > other.1
        } else {
            self.2 >= other.2
        }
    }
}

} // verus!

