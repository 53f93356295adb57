//! Fixed-point percentages and the fence that marks a base price up by them.
//!
//! A [`Percentage`] counts tenths of a percent of the base price: `1000` is
//! the base price itself, `1100` a markup of 10%, `1205` one of 20.5%.

use vstd::prelude::*;
use vstd::string::StringExecFns;
use crate::decimal::{all_digits, decimal, digit_char, digit_value, digits_value, is_digit, push_decimal};
use crate::decimal::{lemma_decimal_is_digits, lemma_decimal_round_trip};
use crate::strings::chars_of;

verus! {

/// Why a percentage could not be made.
#[derive(Debug, Clone, Copy, PartialEq, Eq, Structural)]
pub enum PercentageError {
    /// The number is outside the band of valid percentages, whose ends are
    /// reported whatever number was offered.
    OutOfRange { min: u64, max: u64 },
    /// The text is not a number in the form that people enter.
    InvalidNumber,
}

/// A percentage in tenths of a percent, always within
/// [`Percentage::MIN`]`..=`[`Percentage::MAX`].
#[derive(Debug, Clone, Copy, PartialEq, Eq, Structural)]
pub struct Percentage(u64);

impl View for Percentage {
    type V = nat;

    /// The number of tenths of a percent.
    closed spec fn view(&self) -> nat {
        self.0 as nat
    }
}

/// The price after applying a percentage of `tenths` tenths of a percent to
/// `base`, with the fraction cut off.
pub open spec fn marked_up(base: nat, tenths: nat) -> nat {
    base * tenths / 1000
}

/// How far a percentage of `tenths` tenths of a percent lies above the base
/// price, in tenths of a percent. At or below the base price there is no
/// markup, and the markup is nothing.
pub open spec fn markup_over_base(tenths: nat) -> nat {
    if tenths >= 1000 {
        (tenths - 1000) as nat
    } else {
        0
    }
}

/// The words that follow the number when a markup is shown.
pub open spec fn markup_suffix() -> Seq<char> {
    seq!['%', ' ', 'm', 'a', 'r', 'k', 'u', 'p']
}

/// A markup of `tenths` tenths of a percent as a number in percent: the whole
/// percents, and one decimal only where it is not zero.
pub open spec fn markup_number(tenths: nat) -> Seq<char> {
    if tenths % 10 == 0 {
        decimal(tenths / 10)
    } else {
        decimal(tenths / 10).push('.').push(digit_char(tenths % 10))
    }
}

/// How a markup of `tenths` tenths of a percent is shown, as in `"10% markup"`
/// and `"20.5% markup"`.
pub open spec fn markup_text(tenths: nat) -> Seq<char> {
    markup_number(tenths) + markup_suffix()
}

/// `s` without the words of [`markup_suffix`] at its end, if it ends in them.
pub open spec fn without_suffix(s: Seq<char>) -> Seq<char> {
    if s.len() >= 8 && s.skip(s.len() - 8) == markup_suffix() {
        s.take(s.len() - 8)
    } else {
        s
    }
}

/// `s` ends in a point and one more character.
pub open spec fn has_decimal(s: Seq<char>) -> bool {
    s.len() >= 2 && s[s.len() - 2] == '.'
}

/// The part of `s` before the point, or all of `s` where it has none.
pub open spec fn whole_part(s: Seq<char>) -> Seq<char> {
    if has_decimal(s) {
        s.take(s.len() - 2)
    } else {
        s
    }
}

/// `s` is a number as people enter it: one or more digits, and optionally a
/// point with exactly one digit behind it.
pub open spec fn is_human_number(s: Seq<char>) -> bool {
    &&& whole_part(s).len() > 0
    &&& all_digits(whole_part(s))
    &&& has_decimal(s) ==> is_digit(s.last())
}

/// The number that `s` spells, counted in tenths.
pub open spec fn human_tenths(s: Seq<char>) -> nat {
    10 * digits_value(whole_part(s)) + if has_decimal(s) {
        digit_value(s.last())
    } else {
        0
    }
}

/// What a text entered as a markup in percent means: the percentage in tenths
/// of a percent of the base price, or the reason why it is none. The words of
/// [`markup_suffix`] may follow the number. A text that is no number is
/// `InvalidNumber`, however large it looks; a number whose percentage would
/// exceed [`Percentage::MAX`] is `OutOfRange`.
pub open spec fn human_percentage(s: Seq<char>) -> Result<nat, PercentageError> {
    let number = without_suffix(s);
    if !is_human_number(number) {
        Err(PercentageError::InvalidNumber)
    } else if 1000 + human_tenths(number) > 10_000 {
        Err(PercentageError::OutOfRange { min: 0, max: 10_000 })
    } else {
        Ok(1000 + human_tenths(number))
    }
}

/// What [`PercentageError::to_string`] says for `error`.
pub open spec fn error_text(error: PercentageError) -> Seq<char> {
    match error {
        PercentageError::OutOfRange { min, max } => "percentage must be between "@ + decimal(
            min as nat,
        ) + " and "@ + decimal(max as nat),
        PercentageError::InvalidNumber => "not a valid number"@,
    }
}

impl PercentageError {
    /// The error as a sentence that can be shown to the person who typed.
    pub fn to_string(&self) -> (r: String)
        ensures
            r@ == error_text(*self),
    {
        match self {
            PercentageError::OutOfRange { min, max } => {
                let mut out = String::from_str("percentage must be between ");
                push_decimal(&mut out, *min);
                out.append(" and ");
                push_decimal(&mut out, *max);
                out
            },
            PercentageError::InvalidNumber => String::from_str("not a valid number"),
        }
    }
}

impl Percentage {
    /// What one whole, the base price itself, counts as.
    pub const VALUE_SCALE: u64 = 1000;

    /// The smallest valid percentage.
    pub const MIN: u64 = 0;

    /// The largest valid percentage, ten times the base price.
    pub const MAX: u64 = 10_000;

    #[verifier::type_invariant]
    spec fn in_range(&self) -> bool {
        self.0 <= 10_000
    }

    /// Makes a percentage of `percent` tenths of a percent, if that is within
    /// the valid band.
    pub fn try_new(percent: u64) -> (r: Result<Percentage, PercentageError>)
        ensures
            percent <= Percentage::MAX ==> r is Ok && r->Ok_0@ == percent,
            percent > Percentage::MAX ==> r == Err::<Percentage, PercentageError>(
                PercentageError::OutOfRange { min: Percentage::MIN, max: Percentage::MAX },
            ),
    {
        if percent <= Self::MAX {
            Ok(Percentage(percent))
        } else {
            Err(PercentageError::OutOfRange { min: Self::MIN, max: Self::MAX })
        }
    }

    /// The percentage in tenths of a percent.
    pub fn value(&self) -> (r: u64)
        ensures
            r == self@,
            r <= Percentage::MAX,
    {
        proof {
            use_type_invariant(self);
        }
        self.0
    }

    /// The share of `base` that this percentage stands for, rounded down.
    /// The product of `base` and the percentage has to fit in a `u64`.
    pub fn apply_to(&self, base: u64) -> (r: u64)
        requires
            base * self@ <= u64::MAX,
        ensures
            r == marked_up(base as nat, self@),
    {
        base * self.0 / Self::VALUE_SCALE
    }

    /// How far the percentage lies above the base price, in tenths of a
    /// percent. A percentage below the base price has no markup, which
    /// counts as a markup of nothing.
    pub fn markup_scaled(&self) -> (r: u64)
        ensures
            r == markup_over_base(self@),
    {
        if self.0 >= Self::VALUE_SCALE {
            self.0 - Self::VALUE_SCALE
        } else {
            0
        }
    }

    /// The markup as shown to people: `"10% markup"`, `"20.5% markup"`, and
    /// `"0% markup"` for every percentage at or below the base price.
    pub fn to_string(&self) -> (r: String)
        ensures
            r@ == markup_text(markup_over_base(self@)),
    {
        let scaled = self.markup_scaled();
        let whole: u64 = scaled / 10;
        let fraction: u64 = scaled % 10;
        let mut out = String::new();
        push_decimal(&mut out, whole);
        assert(out@ == decimal(whole as nat));
        if fraction != 0 {
            out.push('.');
            out.push((fraction as u8 + 48) as char);
        }
        assert(out@ == markup_number(scaled as nat));
        proof {
            reveal_strlit("% markup");
            assert("% markup"@ == markup_suffix());
        }
        out.append("% markup");
        out
    }
}

/// Reads a markup as people enter it, in percent with at most one decimal:
/// `"10"` is a markup of 10%, `"12.5"` one of 12.5%. The text that
/// [`Percentage::to_string`] makes is read as well.
pub fn parse_human_percentage(input: &str) -> (r: Result<Percentage, PercentageError>)
    ensures
        match human_percentage(input@) {
            Ok(tenths) => r is Ok && r->Ok_0@ == tenths,
            Err(error) => r == Err::<Percentage, PercentageError>(error),
        },
{
    let chars = chars_of(input);
    let n: usize = chars.len();
    let suffixed: bool = n >= 8 && chars[n - 8] == '%' && chars[n - 7] == ' ' && chars[n - 6] == 'm'
        && chars[n - 5] == 'a' && chars[n - 4] == 'r' && chars[n - 3] == 'k' && chars[n - 2] == 'u'
        && chars[n - 1] == 'p';
    let end: usize = if suffixed {
        n - 8
    } else {
        n
    };
    let ghost number = chars@.take(end as int);
    proof {
        if n >= 8 {
            let tail = chars@.skip(n - 8);
            if suffixed {
                assert(tail == markup_suffix());
            } else {
                assert(tail[0] == chars@[n - 8] && tail[1] == chars@[n - 7] && tail[2] == chars@[n
                    - 6] && tail[3] == chars@[n - 5] && tail[4] == chars@[n - 4] && tail[5]
                    == chars@[n - 3] && tail[6] == chars@[n - 2] && tail[7] == chars@[n - 1]);
            }
        }
        assert(chars@.take(n as int) == chars@);
        assert(number == without_suffix(input@));
    }
    let pointed: bool = end >= 2 && chars[end - 2] == '.';
    let whole_end: usize = if pointed {
        end - 2
    } else {
        end
    };
    let ghost whole = chars@.take(whole_end as int);
    assert(pointed == has_decimal(number));
    assert(whole == whole_part(number)) by {
        assert(number.take(whole_end as int) == whole);
        assert(number.take(end as int) == number);
    }
    if whole_end == 0 {
        return Err(PercentageError::InvalidNumber);
    }
    // The whole percents, counted no further than 1000: any more is out of
    // range whatever follows.
    let mut percents: u64 = 0;
    let mut i: usize = 0;
    while i < whole_end
        invariant
            i <= whole_end <= chars.len(),
            whole == chars@.take(whole_end as int),
            whole == whole_part(without_suffix(input@)),
            all_digits(whole.take(i as int)),
            percents <= 1000,
            percents == if digits_value(whole.take(i as int)) < 1000 {
                digits_value(whole.take(i as int))
            } else {
                1000
            },
        decreases whole_end - i,
    {
        let c: char = chars[i];
        let ghost upto = whole.take(i + 1);
        assert(upto.drop_last() == whole.take(i as int));
        assert(upto.last() == c);
        if !(c >= '0' && c <= '9') {
            assert(!is_digit(whole[i as int]));
            return Err(PercentageError::InvalidNumber);
        }
        let d: u64 = (c as u8 - 48) as u64;
        percents = if percents * 10 + d < 1000 {
            percents * 10 + d
        } else {
            1000
        };
        i = i + 1;
    }
    assert(whole.take(whole_end as int) == whole);
    let mut tenth: u64 = 0;
    if pointed {
        let c: char = chars[end - 1];
        assert(number.last() == c);
        if !(c >= '0' && c <= '9') {
            return Err(PercentageError::InvalidNumber);
        }
        tenth = (c as u8 - 48) as u64;
    }
    assert(is_human_number(number));
    let scaled: u64 = Percentage::VALUE_SCALE + 10 * percents + tenth;
    if scaled > Percentage::MAX {
        return Err(PercentageError::OutOfRange { min: Percentage::MIN, max: Percentage::MAX });
    }
    Ok(Percentage(scaled))
}

/// Showing a markup and reading the text back gives the percentage that was
/// shown, for every markup that a valid percentage can have.
pub proof fn lemma_markup_text_reads_back(tenths: nat)
    requires
        tenths <= 9000,
    ensures
        human_percentage(markup_text(tenths)) == Ok::<nat, PercentageError>(1000 + tenths),
{
    let number = markup_number(tenths);
    let text = markup_text(tenths);
    let percents = decimal(tenths / 10);
    lemma_decimal_is_digits(tenths / 10);
    lemma_decimal_round_trip(tenths / 10);
    assert(without_suffix(text) == number) by {
        assert(text.skip(text.len() - 8) == markup_suffix());
        assert(text.take(text.len() - 8) == number);
    }
    if tenths % 10 == 0 {
        assert(!has_decimal(number)) by {
            if number.len() >= 2 {
                assert(is_digit(number[number.len() - 2]));
            }
        }
    } else {
        assert(has_decimal(number));
        assert(whole_part(number) == percents);
        assert(number.last() == digit_char(tenths % 10));
    }
}

/// A trader who buys and sells at a markup over the base price of the goods.
#[derive(Debug, Clone)]
pub struct Fence {
    pub name: String,
    pub reputation: u8,
    pub lowest_markup: Percentage,
    pub avg_markup: Percentage,
    pub highest_markup: Percentage,
}

/// A fence as plain values: the name as characters, the three percentages in
/// tenths of a percent. No order among the three is asked for.
pub struct FenceView {
    pub name: Seq<char>,
    pub reputation: u8,
    pub lowest_markup: nat,
    pub avg_markup: nat,
    pub highest_markup: nat,
}

impl View for Fence {
    type V = FenceView;

    open spec fn view(&self) -> FenceView {
        FenceView {
            name: self.name@,
            reputation: self.reputation,
            lowest_markup: self.lowest_markup@,
            avg_markup: self.avg_markup@,
            highest_markup: self.highest_markup@,
        }
    }
}

impl Default for Fence {
    /// A nameless fence without reputation who asks 8% at least, 10% on
    /// average and 20.5% at most.
    fn default() -> (r: Fence)
        ensures
            r@ == (FenceView {
                name: Seq::empty(),
                reputation: 0,
                lowest_markup: 1080,
                avg_markup: 1100,
                highest_markup: 1205,
            }),
    {
        Fence {
            name: String::new(),
            reputation: 0,
            lowest_markup: Percentage(1080),
            avg_markup: Percentage(1100),
            highest_markup: Percentage(1205),
        }
    }
}

impl Fence {
    /// A fence with the given name, reputation and markups.
    pub fn new(
        name: String,
        reputation: u8,
        lowest_markup: Percentage,
        avg_markup: Percentage,
        highest_markup: Percentage,
    ) -> (r: Fence)
        ensures
            r@ == (FenceView {
                name: name@,
                reputation,
                lowest_markup: lowest_markup@,
                avg_markup: avg_markup@,
                highest_markup: highest_markup@,
            }),
    {
        Fence { name, reputation, lowest_markup, avg_markup, highest_markup }
    }

    /// The price of goods worth `base_price` at the fence's average markup,
    /// rounded down.
    pub fn avg_markup_price(&self, base_price: u64) -> (r: u64)
        requires
            base_price * self@.avg_markup <= u64::MAX,
        ensures
            r == marked_up(base_price as nat, self@.avg_markup),
    {
        self.avg_markup.apply_to(base_price)
    }

    /// The price of goods worth `base_price` at the fence's lowest markup,
    /// rounded down.
    pub fn lowest_markup_price(&self, base_price: u64) -> (r: u64)
        requires
            base_price * self@.lowest_markup <= u64::MAX,
        ensures
            r == marked_up(base_price as nat, self@.lowest_markup),
    {
        self.lowest_markup.apply_to(base_price)
    }

    /// The price of goods worth `base_price` at the fence's highest markup,
    /// rounded down.
    pub fn highest_markup_price(&self, base_price: u64) -> (r: u64)
        requires
            base_price * self@.highest_markup <= u64::MAX,
        ensures
            r == marked_up(base_price as nat, self@.highest_markup),
    {
        self.highest_markup.apply_to(base_price)
    }
}

} // verus!
