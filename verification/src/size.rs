//! Dimensions: a percentage, an absolute pixel length, or an opaque token.
//!
//! Magnitudes are exact decimal numbers with three fractional digits, held
//! as a count of thousandths: `Pixel(12_500)` is 12.5px.

use vstd::prelude::*;
use vstd::string::*;
use crate::text::{char_digit_value, char_is_digit, digit_char, digit_text, digit_value, is_digit, nat_text, push_nat, str_eq, to_chars};

verus! {

/// Thousandths per unit.
pub const SCALE: i64 = 1000;

/// The largest magnitude, in thousandths, that a parsed size can have.
pub const MAX_MAGNITUDE: i64 = 999_999_999;

/// A dimension as written in an attribute, or as computed for a layout.
#[derive(Debug)]
pub enum Size {
    /// A percentage, in thousandths of a percent.
    Percent(i64),
    /// An absolute length, in thousandths of a pixel.
    Pixel(i64),
    /// A token that could not be read as a percentage or a pixel length.
    Raw(String),
}

/// The mathematical value of a [`Size`].
pub enum SizeView {
    Percent(int),
    Pixel(int),
    Raw(Seq<char>),
}

impl View for Size {
    type V = SizeView;

    open spec fn view(&self) -> SizeView {
        match self {
            Size::Percent(v) => SizeView::Percent(*v as int),
            Size::Pixel(v) => SizeView::Pixel(*v as int),
            Size::Raw(s) => SizeView::Raw(s@),
        }
    }
}

impl SizeView {
    /// The magnitude of a numeric size; an opaque token counts as zero.
    pub open spec fn value(self) -> int {
        match self {
            SizeView::Percent(v) => v,
            SizeView::Pixel(v) => v,
            SizeView::Raw(_) => 0,
        }
    }

    /// A numeric size is in range when its magnitude is neither negative nor
    /// above [`MAX_MAGNITUDE`]; an opaque token always is.
    pub open spec fn in_range(self) -> bool {
        0 <= self.value() <= MAX_MAGNITUDE
    }
}

/// The number that a sequence of decimal digits denotes.
pub open spec fn digits_value(s: Seq<char>) -> nat
    decreases s.len(),
{
    if s.len() == 0 {
        0
    } else {
        digits_value(s.drop_last()) * 10 + digit_value(s.last()) as nat
    }
}

/// A non-empty run of decimal digits.
pub open spec fn all_digits(s: Seq<char>) -> bool {
    s.len() > 0 && forall|i: int| 0 <= i < s.len() ==> is_digit(#[trigger] s[i])
}

/// How many decimal digits `s` starts with.
pub open spec fn leading_digits(s: Seq<char>) -> nat
    decreases s.len(),
{
    if s.len() == 0 || !is_digit(s[0]) {
        0
    } else {
        1 + leading_digits(s.drop_first())
    }
}

/// The thousandths that the digits after a decimal point stand for: the
/// first three digits count, later ones are cut off.
pub open spec fn fraction_value(f: Seq<char>) -> int {
    (if f.len() > 0 {
        digit_value(f[0]) * 100
    } else {
        0
    }) + (if f.len() > 1 {
        digit_value(f[1]) * 10
    } else {
        0
    }) + (if f.len() > 2 {
        digit_value(f[2])
    } else {
        0
    })
}

/// The magnitude, in thousandths, of a decimal number: digits, optionally
/// followed by a point and more digits, with a whole part below one
/// million. `None` for any other text.
pub open spec fn number_value(s: Seq<char>) -> Option<int> {
    let k = leading_digits(s) as int;
    let whole = digits_value(s.take(k));
    if k == 0 || whole * SCALE > MAX_MAGNITUDE {
        None
    } else if k == s.len() {
        Some(whole * SCALE)
    } else if s[k] == '.' && all_digits(s.skip(k + 1)) {
        Some(whole * SCALE + fraction_value(s.skip(k + 1)))
    } else {
        None
    }
}

/// What a piece of attribute text means as a size: a number followed by
/// `px` is a pixel length, a number followed by `%` a percentage, anything
/// else an opaque token that keeps the text.
pub open spec fn parse_size(s: Seq<char>) -> SizeView {
    let n = s.len() as int;
    if n >= 2 && s[n - 2] == 'p' && s[n - 1] == 'x' && number_value(s.take(n - 2)) is Some {
        SizeView::Pixel(number_value(s.take(n - 2))->0)
    } else if n >= 1 && s[n - 1] == '%' && number_value(s.take(n - 1)) is Some {
        SizeView::Percent(number_value(s.take(n - 1))->0)
    } else {
        SizeView::Raw(s)
    }
}

/// The digits after the decimal point for `f` thousandths, without trailing
/// zeros; empty when there is no fraction.
pub open spec fn fraction_text(f: int) -> Seq<char> {
    if f == 0 {
        Seq::empty()
    } else if f % 100 == 0 {
        seq!['.', digit_char(f / 100)]
    } else if f % 10 == 0 {
        seq!['.', digit_char(f / 100), digit_char((f / 10) % 10)]
    } else {
        seq!['.', digit_char(f / 100), digit_char((f / 10) % 10), digit_char(f % 10)]
    }
}

/// The decimal notation of a magnitude given in thousandths.
pub open spec fn magnitude_text(v: int) -> Seq<char> {
    let m = if v < 0 {
        -v
    } else {
        v
    };
    (if v < 0 {
        seq!['-']
    } else {
        Seq::empty()
    }) + nat_text((m / 1000) as nat) + fraction_text(m % 1000)
}

/// The text of a size as it is written into markup.
pub open spec fn size_text(s: SizeView) -> Seq<char> {
    match s {
        SizeView::Percent(v) => magnitude_text(v).push('%'),
        SizeView::Pixel(v) => magnitude_text(v) + seq!['p', 'x'],
        SizeView::Raw(t) => t,
    }
}

/// The leading digits of `s` are exactly its first `k` characters.
pub proof fn lemma_leading_digits(s: Seq<char>, k: int)
    requires
        0 <= k <= s.len(),
        forall|j: int| 0 <= j < k ==> is_digit(#[trigger] s[j]),
        k == s.len() || !is_digit(s[k]),
    ensures
        leading_digits(s) == k,
    decreases k,
{
    if k > 0 {
        let t = s.drop_first();
        assert forall|j: int| 0 <= j < k - 1 implies is_digit(#[trigger] t[j]) by {
            assert(t[j] == s[j + 1]);
        }
        lemma_leading_digits(t, k - 1);
    }
}

/// Reads the decimal number that `chars[from..to]` spells, in thousandths.
pub(crate) fn read_number(chars: &Vec<char>, from: usize, to: usize) -> (r: Option<i64>)
    requires
        from <= to <= chars.len(),
    ensures
        match r {
            Some(v) => number_value(chars@.subrange(from as int, to as int)) == Some(v as int)
                && 0 <= v <= MAX_MAGNITUDE,
            None => number_value(chars@.subrange(from as int, to as int)) is None,
        },
{
    let ghost s = chars@.subrange(from as int, to as int);
    let mut i: usize = from;
    let mut whole: u64 = 0;
    while i < to && char_is_digit(chars[i])
        invariant
            from <= i <= to <= chars.len(),
            s == chars@.subrange(from as int, to as int),
            forall|j: int| 0 <= j < i - from ==> is_digit(#[trigger] s[j]),
            whole == if digits_value(s.take(i - from)) >= 1_000_000 {
                1_000_000
            } else {
                digits_value(s.take(i - from))
            },
        decreases to - i,
    {
        let d: u64 = char_digit_value(chars[i]) as u64;
        proof {
            let next = s.take(i - from + 1);
            assert(next.drop_last() =~= s.take(i - from));
            assert(next.last() == chars@[i as int]);
        }
        if whole < 1_000_000 {
            whole = whole * 10 + d;
            if whole > 1_000_000 {
                whole = 1_000_000;
            }
        }
        i += 1;
    }
    let ghost k = i - from;
    proof {
        lemma_leading_digits(s, k);
    }
    if i == from || whole >= 1_000_000 {
        return None;
    }
    if i == to {
        return Some((whole * 1000) as i64);
    }
    if chars[i] != '.' {
        return None;
    }
    let start: usize = i + 1;
    let ghost f = s.skip(k + 1);
    if start == to {
        return None;
    }
    let mut j: usize = start;
    let mut frac: u64 = 0;
    while j < to
        invariant
            start <= j <= to <= chars.len(),
            s == chars@.subrange(from as int, to as int),
            f == s.skip(k + 1),
            0 < k < s.len(),
            leading_digits(s) == k,
            s[k] == '.',
            whole == digits_value(s.take(k)),
            whole < 1_000_000,
            k + 1 == start - from,
            f.len() == to - start,
            forall|x: int| 0 <= x < j - start ==> is_digit(#[trigger] f[x]),
            frac == fraction_value(f.take(j - start)),
            frac <= 999,
        decreases to - j,
    {
        assert(f[j - start] == chars@[j as int]);
        if !char_is_digit(chars[j]) {
            return None;
        }
        let d: u64 = char_digit_value(chars[j]) as u64;
        if j - start == 0 {
            frac = frac + d * 100;
        } else if j - start == 1 {
            frac = frac + d * 10;
        } else if j - start == 2 {
            frac = frac + d;
        }
        j += 1;
    }
    assert(f.take(j - start) =~= f);
    Some((whole * 1000 + frac) as i64)
}

/// The magnitude that `chars[from..to]` has when read as a size.
pub(crate) fn range_value(chars: &Vec<char>, from: usize, to: usize) -> (r: i64)
    requires
        from <= to <= chars.len(),
    ensures
        r == parse_size(chars@.subrange(from as int, to as int)).value(),
        0 <= r <= MAX_MAGNITUDE,
{
    let ghost s = chars@.subrange(from as int, to as int);
    let n = to - from;
    if n >= 2 && chars[to - 2] == 'p' && chars[to - 1] == 'x' {
        assert(chars@.subrange(from as int, to - 2) =~= s.take(n - 2));
        if let Some(v) = read_number(chars, from, to - 2) {
            return v;
        }
    }
    if n >= 1 && chars[to - 1] == '%' {
        assert(chars@.subrange(from as int, to - 1) =~= s.take(n - 1));
        if let Some(v) = read_number(chars, from, to - 1) {
            return v;
        }
    }
    0
}

/// Appends the decimal notation of `v` thousandths to `out`.
pub(crate) fn push_magnitude(out: &mut String, v: i64)
    ensures
        final(out)@ == old(out)@ + magnitude_text(v as int),
{
    let m: u64 = if v < 0 {
        out.append("-");
        ((-(v + 1)) as u64) + 1
    } else {
        v as u64
    };
    proof {
        reveal_strlit("-");
        reveal_strlit(".");
    }
    push_nat(out, m / 1000);
    let f: u64 = m % 1000;
    if f != 0 {
        out.append(".");
        out.append(digit_text((f / 100) as u8));
        if f % 100 != 0 {
            out.append(digit_text(((f / 10) % 10) as u8));
            if f % 10 != 0 {
                out.append(digit_text((f % 10) as u8));
            }
        }
    }
    assert(out@ =~= old(out)@ + magnitude_text(v as int));
}

impl Size {
    /// Reads a piece of attribute text as a size. Every text has a reading:
    /// one that is neither a pixel length nor a percentage is kept as an
    /// opaque token.
    ///
    /// A number of one million or more is not read as a number: `1000000px`
    /// is an opaque token. The bound keeps every product of two magnitudes
    /// within the machine's integers.
    pub fn parse(text: &str) -> (r: Size)
        ensures
            r@ == parse_size(text@),
            r@.in_range(),
    {
        let chars = to_chars(text);
        let n = chars.len();
        assert(chars@.subrange(0, n as int) =~= chars@);
        if n >= 2 && chars[n - 2] == 'p' && chars[n - 1] == 'x' {
            assert(chars@.subrange(0, n - 2) =~= chars@.take(n - 2));
            if let Some(v) = read_number(&chars, 0, n - 2) {
                return Size::Pixel(v);
            }
        }
        if n >= 1 && chars[n - 1] == '%' {
            assert(chars@.subrange(0, n - 1) =~= chars@.take(n - 1));
            if let Some(v) = read_number(&chars, 0, n - 1) {
                return Size::Percent(v);
            }
        }
        Size::Raw(text.to_owned())
    }

    /// The magnitude of a numeric size, in thousandths; zero for an opaque
    /// token, whose numeric meaning is unknown.
    pub fn value(&self) -> (r: i64)
        ensures
            r == self@.value(),
    {
        match self {
            Size::Percent(v) => *v,
            Size::Pixel(v) => *v,
            Size::Raw(_) => 0,
        }
    }

    /// Whether the size is a percentage.
    pub fn is_percent(&self) -> (r: bool)
        ensures
            r == (self@ is Percent),
    {
        matches!(self, Size::Percent(_))
    }

    /// Whether the size is an absolute pixel length.
    pub fn is_pixel(&self) -> (r: bool)
        ensures
            r == (self@ is Pixel),
    {
        matches!(self, Size::Pixel(_))
    }

    /// Whether the size is within the range that layout arithmetic accepts.
    pub fn is_in_range(&self) -> (r: bool)
        ensures
            r == self@.in_range(),
    {
        let v = self.value();
        0 <= v && v <= MAX_MAGNITUDE
    }

    /// The text of the size as it is written into markup: `250px`, `12.5%`,
    /// or the opaque token itself.
    pub fn to_string(&self) -> (r: String)
        ensures
            r@ == size_text(self@),
    {
        proof {
            reveal_strlit("%");
            reveal_strlit("px");
            reveal_strlit("");
        }
        match self {
            Size::Percent(v) => {
                let mut out = String::from_str("");
                push_magnitude(&mut out, *v);
                out.append("%");
                assert(out@ =~= size_text(self@));
                out
            },
            Size::Pixel(v) => {
                let mut out = String::from_str("");
                push_magnitude(&mut out, *v);
                out.append("px");
                assert(out@ =~= size_text(self@));
                out
            },
            Size::Raw(t) => t.clone(),
        }
    }
}

impl PartialEq for Size {
    /// Two sizes are equal when they are of one kind and have the same
    /// magnitude, or hold the same token.
    fn eq(&self, other: &Size) -> (r: bool) {
        match (self, other) {
            (Size::Percent(a), Size::Percent(b)) => *a == *b,
            (Size::Pixel(a), Size::Pixel(b)) => *a == *b,
            (Size::Raw(a), Size::Raw(b)) => str_eq(a.as_str(), b.as_str()),
            _ => false,
        }
    }
}

impl vstd::std_specs::cmp::PartialEqSpecImpl for Size {
    open spec fn obeys_eq_spec() -> bool {
        true
    }

    open spec fn eq_spec(&self, other: &Size) -> bool {
        self@ == other@
    }
}

impl Clone for Size {
    fn clone(&self) -> (r: Size)
        ensures
            r == *self,
    {
        match self {
            Size::Percent(v) => Size::Percent(*v),
            Size::Pixel(v) => Size::Pixel(*v),
            Size::Raw(t) => Size::Raw(t.clone()),
        }
    }
}

} // verus!
