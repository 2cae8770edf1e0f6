//! Reading sizes written as `WxH`.

use crate::error::ParseError;
use crate::icon::Size;
use vstd::prelude::*;
use vstd::string::*;

verus! {

/// The value of a run of decimal digits.
pub open spec fn digits_value(s: Seq<char>) -> int
    decreases s.len(),
{
    if s.len() == 0 {
        0
    } else {
        digits_value(s.drop_last()) * 10 + (s.last() as int - '0' as int)
    }
}

pub open spec fn all_digits(s: Seq<char>) -> bool {
    forall|i: int| 0 <= i < s.len() ==> '0' <= #[trigger] s[i] <= '9'
}

/// The `u32` that the text writes in decimal: an optional `+` and at least one
/// ASCII digit, with a value that fits.
pub open spec fn decimal_u32(s: Seq<char>) -> Option<u32> {
    let d = if s.len() > 0 && s[0] == '+' {
        s.subrange(1, s.len() as int)
    } else {
        s
    };
    if d.len() > 0 && all_digits(d) && digits_value(d) <= u32::MAX {
        Some(digits_value(d) as u32)
    } else {
        None
    }
}

/// Relies on `str::parse::<u32>`, which accepts an optional `+` followed by
/// decimal digits whose value fits in `u32`, and nothing else.
#[verifier::external_body]
fn parse_u32(s: &str) -> (r: Result<u32, std::num::ParseIntError>)
    ensures
        r is Ok <==> decimal_u32(s@) is Some,
        r matches Ok(v) ==> decimal_u32(s@) == Some(v),
{
    s.parse::<u32>()
}

/// The position of the first `c` in `s`, or its length where there is none.
pub open spec fn first_index(s: Seq<char>, c: char) -> int
    decreases s.len(),
{
    if s.len() == 0 || s[0] == c {
        0
    } else {
        1 + first_index(s.subrange(1, s.len() as int), c)
    }
}

proof fn lemma_first_index(s: Seq<char>, c: char, r: int)
    requires
        0 <= r <= s.len(),
        forall|k: int| 0 <= k < r ==> s[k] != c,
        r == s.len() || s[r] == c,
    ensures
        first_index(s, c) == r,
    decreases s.len(),
{
    if s.len() > 0 && s[0] != c {
        let t = s.subrange(1, s.len() as int);
        assert forall|k: int| 0 <= k < r - 1 implies t[k] != c by {
            assert(t[k] == s[k + 1]);
        }
        lemma_first_index(t, c, r - 1);
    }
}

/// The position of the first `c` in `s` at or after `from`, or the length of `s`.
fn find_char(s: &str, c: char, from: usize) -> (r: usize)
    requires
        from <= s@.len(),
    ensures
        from <= r <= s@.len(),
        r - from == first_index(s@.subrange(from as int, s@.len() as int), c),
{
    let n = s.unicode_len();
    let mut i: usize = from;
    while i < n && s.get_char(i) != c
        invariant
            n == s@.len(),
            from <= i <= n,
            forall|k: int| from <= k < i ==> s@[k] != c,
        decreases n - i,
    {
        i += 1;
    }
    proof {
        let t = s@.subrange(from as int, n as int);
        assert forall|k: int| 0 <= k < i - from implies t[k] != c by {
            assert(t[k] == s@[from + k]);
        }
        lemma_first_index(t, c, i - from);
    }
    i
}

/// The text before the first `x` of `s`.
pub open spec fn width_text(s: Seq<char>) -> Seq<char> {
    s.subrange(0, first_index(s, 'x'))
}

/// The text between the first and the second `x` of `s`, or after the first
/// where there is no second.
pub open spec fn height_text(s: Seq<char>) -> Seq<char> {
    let rest = s.subrange(first_index(s, 'x') + 1, s.len() as int);
    rest.subrange(0, first_index(rest, 'x'))
}

impl Size {
    /// Reads a size written as `WxH`, such as `64x64`.
    ///
    /// The text is split at each `x`: without an `x` it is a size error that
    /// holds `input: ` and the text; otherwise the first two pieces must be
    /// decimal `u32`s, and anything after a second `x` is ignored.
    pub fn parse(s: &str) -> (r: Result<Size, ParseError>)
        ensures
            first_index(s@, 'x') == s@.len() ==> (r matches Err(ParseError::Size(t))
                && t@ == "input: "@ + s@),
            first_index(s@, 'x') < s@.len() && decimal_u32(width_text(s@)) is None
                ==> r matches Err(ParseError::Int(_)),
            first_index(s@, 'x') < s@.len() && decimal_u32(width_text(s@)) is Some
                && decimal_u32(height_text(s@)) is None ==> r matches Err(ParseError::Int(_)),
            first_index(s@, 'x') < s@.len() && decimal_u32(width_text(s@)) is Some
                && decimal_u32(height_text(s@)) is Some ==> r == Ok::<Size, ParseError>(
                (Size { w: decimal_u32(width_text(s@))->Some_0, h: decimal_u32(height_text(s@))->Some_0 }),
            ),
    {
        let n = s.unicode_len();
        let i = find_char(s, 'x', 0);
        assert(s@.subrange(0, n as int) =~= s@);
        if i == n {
            let mut t = String::from_str("input: ");
            t.append(s);
            return Err(ParseError::Size(t));
        }
        let rest = s.substring_char(i + 1, n);
        let j = find_char(rest, 'x', 0);
        proof {
            assert(rest@.subrange(0, rest@.len() as int) =~= rest@);
        }
        let w = match parse_u32(s.substring_char(0, i)) {
            Ok(v) => v,
            Err(e) => {
                return Err(ParseError::Int(e));
            },
        };
        let h = match parse_u32(rest.substring_char(0, j)) {
            Ok(v) => v,
            Err(e) => {
                return Err(ParseError::Int(e));
            },
        };
        Ok(Size { w, h })
    }
}

impl std::str::FromStr for Size {
    type Err = ParseError;

    fn from_str(s: &str) -> Result<Size, ParseError> {
        Size::parse(s)
    }
}

} // verus!
