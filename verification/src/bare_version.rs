//! The [`BareVersion`] type: a bare version number with two or three
//! components, as used for a package's minimum toolchain version.

use vstd::prelude::*;

use crate::feature_value::{find_char, find_first, lemma_find_char_props};

verus! {

/// A bare version number with two or three components.
#[derive(Clone, Debug, PartialEq, Eq)]
pub struct BareVersion {
    /// The major version component
    pub major: u64,
    /// The minor version component
    pub minor: u64,
    /// The patch version component
    pub patch: Option<u64>,
}

/// An error while parsing one unsigned decimal component.
#[derive(Clone, Copy, Debug, PartialEq, Eq, Hash)]
pub enum IntParseError {
    /// The component is empty.
    Empty,
    /// A character of the component is no decimal digit.
    InvalidDigit,
    /// The component's value does not fit the component type.
    Overflow,
}

/// An error while parsing a bare version.
#[derive(Clone, Copy, Debug, PartialEq, Eq, Hash)]
pub enum BareVersionError {
    /// Value is empty.
    Empty,
    /// Value lacks a minor version.
    ExpectedMinorVersion,
    /// Failed to parse an integer component.
    ParseInt(IntParseError),
}

impl From<IntParseError> for BareVersionError {
    /// An integer-component error wrapped as a bare-version error.
    fn from(err: IntParseError) -> (r: BareVersionError) {
        BareVersionError::ParseInt(err)
    }
}

impl vstd::std_specs::convert::FromSpecImpl<IntParseError> for BareVersionError {
    open spec fn obeys_from_spec() -> bool {
        true
    }

    open spec fn from_spec(err: IntParseError) -> BareVersionError {
        BareVersionError::ParseInt(err)
    }
}

/// Whether `c` is a decimal digit.
pub open spec fn is_digit(c: char) -> bool {
    '0' as int <= c as int <= '9' as int
}

/// The value of the decimal digit `c`.
pub open spec fn digit_val(c: char) -> nat {
    (c as int - '0' as int) as nat
}

/// Scanning `s` left to right with accumulator `acc`, as the standard
/// decimal parse does: the first non-digit stops the scan with an invalid
/// digit; a step whose value leaves the 64-bit range stops it with an
/// overflow.
pub open spec fn scan_digits(s: Seq<char>, acc: nat) -> Result<nat, IntParseError>
    decreases s.len(),
{
    if s.len() == 0 {
        Ok(acc)
    } else if !is_digit(s[0]) {
        Err(IntParseError::InvalidDigit)
    } else if acc * 10 + digit_val(s[0]) > u64::MAX {
        Err(IntParseError::Overflow)
    } else {
        scan_digits(s.drop_first(), acc * 10 + digit_val(s[0]))
    }
}

/// The value `scan_digits` returns stays in the 64-bit range.
pub proof fn lemma_scan_digits_in_range(s: Seq<char>, acc: nat)
    requires
        acc <= u64::MAX,
    ensures
        match scan_digits(s, acc) {
            Ok(n) => n <= u64::MAX,
            Err(_) => true,
        },
    decreases s.len(),
{
    if s.len() > 0 && is_digit(s[0]) && acc * 10 + digit_val(s[0]) <= u64::MAX {
        lemma_scan_digits_in_range(s.drop_first(), acc * 10 + digit_val(s[0]));
    }
}

/// The unsigned 64-bit decimal parse of `s`: an optional leading `+`, then
/// at least one digit, scanned left to right.
pub open spec fn u64_parse_spec(s: Seq<char>) -> Result<nat, IntParseError> {
    if s.len() == 0 {
        Err(IntParseError::Empty)
    } else {
        let d = if s[0] == '+' {
            s.drop_first()
        } else {
            s
        };
        if d.len() == 0 {
            Err(IntParseError::InvalidDigit)
        } else {
            scan_digits(d, 0)
        }
    }
}

/// The three dot-separated components of `s`: the part before the first dot,
/// the part between the first and the second dot, and the rest.  Components
/// after the first two keep any further dots.
pub open spec fn split_components(s: Seq<char>) -> (Seq<char>, Option<Seq<char>>, Option<
    Seq<char>,
>) {
    match find_char(s, '.') {
        None => (s, None, None),
        Some(d1) => {
            let rest = s.subrange(d1 + 1, s.len() as int);
            match find_char(rest, '.') {
                None => (s.subrange(0, d1), Some(rest), None),
                Some(d2) => (
                    s.subrange(0, d1),
                    Some(rest.subrange(0, d2)),
                    Some(rest.subrange(d2 + 1, rest.len() as int)),
                ),
            }
        },
    }
}

/// What parsing `s` as a bare version yields: an empty major component is an
/// empty value; a major component that does not parse is an integer error; a
/// missing or empty minor component lacks the minor version; then minor and,
/// where present, patch parse as unsigned decimal components.
pub open spec fn bare_version_spec(s: Seq<char>) -> Result<BareVersion, BareVersionError> {
    let parts = split_components(s);
    if parts.0.len() == 0 {
        Err(BareVersionError::Empty)
    } else {
        match u64_parse_spec(parts.0) {
            Err(e) => Err(BareVersionError::ParseInt(e)),
            Ok(major) => match parts.1 {
                None => Err(BareVersionError::ExpectedMinorVersion),
                Some(minor_str) => if minor_str.len() == 0 {
                    Err(BareVersionError::ExpectedMinorVersion)
                } else {
                    match u64_parse_spec(minor_str) {
                        Err(e) => Err(BareVersionError::ParseInt(e)),
                        Ok(minor) => match parts.2 {
                            None => Ok(
                                BareVersion { major: major as u64, minor: minor as u64, patch: None },
                            ),
                            Some(patch_str) => match u64_parse_spec(patch_str) {
                                Err(e) => Err(BareVersionError::ParseInt(e)),
                                Ok(patch) => Ok(
                                    BareVersion {
                                        major: major as u64,
                                        minor: minor as u64,
                                        patch: Some(patch as u64),
                                    },
                                ),
                            },
                        },
                    }
                },
            },
        }
    }
}

/// At a non-digit, the scan stops with an invalid digit.
proof fn lemma_scan_at_invalid(s: Seq<char>, i: int, n: int, acc: nat)
    requires
        0 <= i < n <= s.len(),
        !is_digit(s[i]),
    ensures
        scan_digits(s.subrange(i, n), acc) == Err::<nat, IntParseError>(IntParseError::InvalidDigit),
{
    assert(s.subrange(i, n)[0] == s[i]);
}

/// At a digit whose step leaves the 64-bit range, the scan stops with an
/// overflow.
proof fn lemma_scan_at_overflow(s: Seq<char>, i: int, n: int, acc: nat)
    requires
        0 <= i < n <= s.len(),
        is_digit(s[i]),
        acc * 10 + digit_val(s[i]) > u64::MAX,
    ensures
        scan_digits(s.subrange(i, n), acc) == Err::<nat, IntParseError>(IntParseError::Overflow),
{
    assert(s.subrange(i, n)[0] == s[i]);
}

/// At a digit whose step stays in range, the scan takes the digit into the
/// accumulator and goes on.
proof fn lemma_scan_step(s: Seq<char>, i: int, n: int, acc: nat)
    requires
        0 <= i < n <= s.len(),
        is_digit(s[i]),
        acc * 10 + digit_val(s[i]) <= u64::MAX,
    ensures
        scan_digits(s.subrange(i, n), acc) == scan_digits(
            s.subrange(i + 1, n),
            acc * 10 + digit_val(s[i]),
        ),
{
    assert(s.subrange(i, n)[0] == s[i]);
    assert(s.subrange(i, n).drop_first() =~= s.subrange(i + 1, n));
}

/// The decimal parse of a non-empty string is the scan of its digits after
/// the optional sign.
proof fn lemma_u64_parse_as_scan(s: Seq<char>, start: int)
    requires
        1 <= s.len(),
        0 <= start < s.len(),
        (s[0] == '+') <==> (start == 1),
        start == 0 || start == 1,
    ensures
        u64_parse_spec(s) == scan_digits(s.subrange(start, s.len() as int), 0),
{
    if s[0] == '+' {
        assert(s.drop_first() =~= s.subrange(1, s.len() as int));
    } else {
        assert(s =~= s.subrange(0, s.len() as int));
    }
}

/// Parses one unsigned decimal component exactly as [`u64_parse_spec`] says.
fn parse_u64(s: &str) -> (r: Result<u64, IntParseError>)
    ensures
        match r {
            Ok(v) => u64_parse_spec(s@) == Ok::<nat, IntParseError>(v as nat),
            Err(e) => u64_parse_spec(s@) == Err::<nat, IntParseError>(e),
        },
{
    let n = s.unicode_len();
    if n == 0 {
        return Err(IntParseError::Empty);
    }
    let start: usize = if s.get_char(0) == '+' {
        1
    } else {
        0
    };
    if n == start {
        return Err(IntParseError::InvalidDigit);
    }
    let q = u64::MAX / 10;
    let rem = u64::MAX % 10;
    let mut acc: u64 = 0;
    let mut i: usize = start;
    while i < n
        invariant
            start <= i <= n,
            n == s@.len(),
            start < n,
            (s@[0] == '+') <==> (start == 1),
            start == 0 || start == 1,
            q == u64::MAX / 10,
            rem == u64::MAX % 10,
            scan_digits(s@.subrange(start as int, n as int), 0) == scan_digits(
                s@.subrange(i as int, n as int),
                acc as nat,
            ),
        decreases n - i,
    {
        let c = s.get_char(i);
        let cv = c as u32;
        if cv < 48 || cv > 57 {
            proof {
                lemma_scan_at_invalid(s@, i as int, n as int, acc as nat);
                lemma_u64_parse_as_scan(s@, start as int);
            }
            return Err(IntParseError::InvalidDigit);
        }
        let dv = (cv - 48) as u64;
        proof {
            assert(is_digit(s@[i as int]));
            assert(digit_val(s@[i as int]) == dv as nat);
        }
        if acc > q || (acc == q && dv > rem) {
            proof {
                assert(acc as nat * 10 + dv as nat > u64::MAX);
                lemma_scan_at_overflow(s@, i as int, n as int, acc as nat);
                lemma_u64_parse_as_scan(s@, start as int);
            }
            return Err(IntParseError::Overflow);
        }
        proof {
            assert(acc as nat * 10 + dv as nat <= u64::MAX);
            lemma_scan_step(s@, i as int, n as int, acc as nat);
        }
        acc = acc * 10 + dv;
        i += 1;
    }
    proof {
        assert(s@.subrange(i as int, n as int).len() == 0);
        lemma_u64_parse_as_scan(s@, start as int);
    }
    Ok(acc)
}

impl BareVersion {
    /// Parses a bare version with two or three dot-separated components,
    /// exactly as [`bare_version_spec`] says.
    pub fn from_str(s: &str) -> (r: Result<BareVersion, BareVersionError>)
        ensures
            r == bare_version_spec(s@),
    {
        let n = s.unicode_len();
        let first_dot = find_first(s, '.');
        proof {
            lemma_find_char_props(s@, '.');
        }
        let (major_str, minor_str, patch_str): (&str, Option<&str>, Option<&str>) =
            match first_dot {
            None => (s, None, None),
            Some(d1) => {
                let rest = s.substring_char(d1 + 1, n);
                let rn = rest.unicode_len();
                let second_dot = find_first(rest, '.');
                proof {
                    lemma_find_char_props(rest@, '.');
                }
                match second_dot {
                    None => (s.substring_char(0, d1), Some(rest), None),
                    Some(d2) => (
                        s.substring_char(0, d1),
                        Some(rest.substring_char(0, d2)),
                        Some(rest.substring_char(d2 + 1, rn)),
                    ),
                }
            },
        };
        let ghost parts = split_components(s@);
        proof {
            assert(parts.0 == major_str@);
            assert(match minor_str {
                Some(m) => parts.1 == Some(m@),
                None => parts.1 is None,
            });
            assert(match patch_str {
                Some(p) => parts.2 == Some(p@),
                None => parts.2 is None,
            });
        }
        if major_str.unicode_len() == 0 {
            return Err(BareVersionError::Empty);
        }
        let major = match parse_u64(major_str) {
            Err(e) => {
                return Err(BareVersionError::ParseInt(e));
            },
            Ok(v) => v,
        };
        let minor_s = match minor_str {
            None => {
                return Err(BareVersionError::ExpectedMinorVersion);
            },
            Some(m) => m,
        };
        if minor_s.unicode_len() == 0 {
            return Err(BareVersionError::ExpectedMinorVersion);
        }
        let minor = match parse_u64(minor_s) {
            Err(e) => {
                return Err(BareVersionError::ParseInt(e));
            },
            Ok(v) => v,
        };
        match patch_str {
            None => Ok(BareVersion { major, minor, patch: None }),
            Some(p) => match parse_u64(p) {
                Err(e) => Err(BareVersionError::ParseInt(e)),
                Ok(v) => Ok(BareVersion { major, minor, patch: Some(v) }),
            },
        }
    }
}

/// The decimal digit character for the value `d`.
pub open spec fn digit_char(d: nat) -> char {
    if d == 0 {
        '0'
    } else if d == 1 {
        '1'
    } else if d == 2 {
        '2'
    } else if d == 3 {
        '3'
    } else if d == 4 {
        '4'
    } else if d == 5 {
        '5'
    } else if d == 6 {
        '6'
    } else if d == 7 {
        '7'
    } else if d == 8 {
        '8'
    } else {
        '9'
    }
}

/// The decimal representation of `n`, most significant digit first.
pub open spec fn dec_repr(n: nat) -> Seq<char>
    decreases n,
{
    if n < 10 {
        seq![digit_char(n)]
    } else {
        dec_repr(n / 10).push(digit_char(n % 10))
    }
}

/// The rendering of a bare version: the components joined by dots, the
/// patch component only where there is one.
pub open spec fn display_spec(v: BareVersion) -> Seq<char> {
    match v.patch {
        Some(p) => dec_repr(v.major as nat) + seq!['.'] + dec_repr(v.minor as nat) + seq!['.']
            + dec_repr(p as nat),
        None => dec_repr(v.major as nat) + seq!['.'] + dec_repr(v.minor as nat),
    }
}

/// The one-character string for the decimal digit `d`.
fn digit_str(d: u64) -> (r: &'static str)
    requires
        d < 10,
    ensures
        r@ == seq![digit_char(d as nat)],
{
    if d == 0 {
        proof {
            reveal_strlit("0");
            assert("0"@ =~= seq![digit_char(0)]);
        }
        "0"
    } else if d == 1 {
        proof {
            reveal_strlit("1");
            assert("1"@ =~= seq![digit_char(1)]);
        }
        "1"
    } else if d == 2 {
        proof {
            reveal_strlit("2");
            assert("2"@ =~= seq![digit_char(2)]);
        }
        "2"
    } else if d == 3 {
        proof {
            reveal_strlit("3");
            assert("3"@ =~= seq![digit_char(3)]);
        }
        "3"
    } else if d == 4 {
        proof {
            reveal_strlit("4");
            assert("4"@ =~= seq![digit_char(4)]);
        }
        "4"
    } else if d == 5 {
        proof {
            reveal_strlit("5");
            assert("5"@ =~= seq![digit_char(5)]);
        }
        "5"
    } else if d == 6 {
        proof {
            reveal_strlit("6");
            assert("6"@ =~= seq![digit_char(6)]);
        }
        "6"
    } else if d == 7 {
        proof {
            reveal_strlit("7");
            assert("7"@ =~= seq![digit_char(7)]);
        }
        "7"
    } else if d == 8 {
        proof {
            reveal_strlit("8");
            assert("8"@ =~= seq![digit_char(8)]);
        }
        "8"
    } else {
        proof {
            reveal_strlit("9");
            assert("9"@ =~= seq![digit_char(9)]);
        }
        "9"
    }
}

/// The decimal rendering of `n`.
fn u64_to_string(n: u64) -> (r: String)
    ensures
        r@ == dec_repr(n as nat),
    decreases n,
{
    if n < 10 {
        digit_str(n).to_owned()
    } else {
        let mut prefix = u64_to_string(n / 10);
        prefix.append(digit_str(n % 10));
        proof {
            assert(dec_repr((n / 10) as nat) + seq![digit_char((n % 10) as nat)] =~= dec_repr(
                n as nat,
            ));
        }
        prefix
    }
}

impl BareVersion {
    /// The version rendered as text: the components joined by dots.
    pub fn display_string(&self) -> (r: String)
        ensures
            r@ == display_spec(*self),
    {
        proof {
            reveal_strlit(".");
        }
        let mut out = u64_to_string(self.major);
        out.append(".");
        out.append(u64_to_string(self.minor).as_str());
        proof {
            assert("."@ =~= seq!['.']);
        }
        match self.patch {
            Some(p) => {
                out.append(".");
                out.append(u64_to_string(p).as_str());
                out
            },
            None => out,
        }
    }
}

impl BareVersionError {
    /// A short description of the error.
    pub fn message(&self) -> (r: &'static str)
        ensures
            r@ == match self {
                BareVersionError::Empty => "value is empty"@,
                BareVersionError::ExpectedMinorVersion => "expected a minor version"@,
                BareVersionError::ParseInt(_) => "failed to parse integer"@,
            },
    {
        match self {
            BareVersionError::Empty => "value is empty",
            BareVersionError::ExpectedMinorVersion => "expected a minor version",
            BareVersionError::ParseInt(_) => "failed to parse integer",
        }
    }
}


/// Scanning a concatenation scans the first part, and on success goes on
/// into the second with the accumulated value.
proof fn lemma_scan_append(a: Seq<char>, b: Seq<char>, acc: nat)
    ensures
        scan_digits(a + b, acc) == (match scan_digits(a, acc) {
            Ok(m) => scan_digits(b, m),
            Err(e) => Err(e),
        }),
    decreases a.len(),
{
    if a.len() == 0 {
        assert(a + b =~= b);
    } else {
        assert((a + b)[0] == a[0]);
        if is_digit(a[0]) && acc * 10 + digit_val(a[0]) <= u64::MAX {
            assert((a + b).drop_first() =~= a.drop_first() + b);
            lemma_scan_append(a.drop_first(), b, acc * 10 + digit_val(a[0]));
        }
    }
}

/// The character of a digit value is a digit, and carries that value.
proof fn lemma_digit_char_val(k: nat)
    requires
        k < 10,
    ensures
        is_digit(digit_char(k)),
        digit_val(digit_char(k)) == k,
{
}

/// A decimal representation is non-empty and all digits.
proof fn lemma_dec_repr_digits(n: nat)
    ensures
        dec_repr(n).len() >= 1,
        forall|i: int| 0 <= i < dec_repr(n).len() ==> is_digit(#[trigger] dec_repr(n)[i]),
    decreases n,
{
    lemma_digit_char_val(n % 10);
    if n < 10 {
        lemma_digit_char_val(n);
    } else {
        lemma_dec_repr_digits(n / 10);
    }
}

/// Scanning the decimal representation of an in-range value yields the
/// value back.
proof fn lemma_scan_dec_repr(n: nat)
    requires
        n <= u64::MAX,
    ensures
        scan_digits(dec_repr(n), 0) == Ok::<nat, IntParseError>(n),
    decreases n,
{
    if n < 10 {
        lemma_digit_char_val(n);
        assert(seq![digit_char(n)].drop_first() =~= Seq::<char>::empty());
        assert(scan_digits(Seq::<char>::empty(), n) == Ok::<nat, IntParseError>(n));
    } else {
        let d = digit_char(n % 10);
        lemma_digit_char_val(n % 10);
        lemma_scan_dec_repr(n / 10);
        assert(dec_repr(n) =~= dec_repr(n / 10) + seq![d]);
        lemma_scan_append(dec_repr(n / 10), seq![d], 0);
        vstd::arithmetic::div_mod::lemma_fundamental_div_mod(n as int, 10);
        assert((n / 10) * 10 + digit_val(d) == n);
        assert(seq![d].drop_first() =~= Seq::<char>::empty());
        assert(scan_digits(Seq::<char>::empty(), n) == Ok::<nat, IntParseError>(n));
        assert(scan_digits(seq![d], n / 10) == Ok::<nat, IntParseError>(n));
    }
}

/// Parsing the decimal representation of an in-range value yields the value
/// back.
proof fn lemma_u64_parse_dec_repr(n: nat)
    requires
        n <= u64::MAX,
    ensures
        u64_parse_spec(dec_repr(n)) == Ok::<nat, IntParseError>(n),
{
    lemma_dec_repr_digits(n);
    lemma_scan_dec_repr(n);
}

/// The rendering of a bare version parses back to the version itself: what
/// the writer emits is exact for the parser.
pub proof fn lemma_display_string_parses_back(v: BareVersion)
    ensures
        bare_version_spec(display_spec(v)) == Ok::<BareVersion, BareVersionError>(v),
{
    let s = display_spec(v);
    let maj = dec_repr(v.major as nat);
    let min = dec_repr(v.minor as nat);
    lemma_dec_repr_digits(v.major as nat);
    lemma_dec_repr_digits(v.minor as nat);
    let d1 = maj.len() as int;
    assert(s[d1] == '.');
    assert forall|j: int| 0 <= j < d1 implies s[j] != '.' by {
        assert(s[j] == maj[j]);
    }
    crate::feature_value::lemma_find_char_is(s, '.', d1);
    assert(s.subrange(0, d1) =~= maj);
    let rest = s.subrange(d1 + 1, s.len() as int);
    match v.patch {
        None => {
            assert(rest =~= min);
            assert forall|j: int| 0 <= j < rest.len() implies rest[j] != '.' by {
                assert(rest[j] == min[j]);
            }
            crate::feature_value::lemma_find_char_none(rest, '.');
            lemma_u64_parse_dec_repr(v.major as nat);
            lemma_u64_parse_dec_repr(v.minor as nat);
        },
        Some(p) => {
            let pat = dec_repr(p as nat);
            lemma_dec_repr_digits(p as nat);
            let d2 = min.len() as int;
            assert(rest =~= min + seq!['.'] + pat);
            assert(rest[d2] == '.');
            assert forall|j: int| 0 <= j < d2 implies rest[j] != '.' by {
                assert(rest[j] == min[j]);
            }
            crate::feature_value::lemma_find_char_is(rest, '.', d2);
            assert(rest.subrange(0, d2) =~= min);
            assert(rest.subrange(d2 + 1, rest.len() as int) =~= pat);
            lemma_u64_parse_dec_repr(v.major as nat);
            lemma_u64_parse_dec_repr(v.minor as nat);
            lemma_u64_parse_dec_repr(p as nat);
        },
    }
}

} // verus!
