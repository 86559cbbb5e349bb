use vstd::prelude::*;
use vstd::string::StrSliceExecFns;

verus! {

/// What has been read of a currency text so far.
pub struct Scan {
    /// Whether an odd number of minus signs stood before the first digit.
    pub negative: bool,
    /// Whether a digit was read.
    pub any_digit: bool,
    /// Whether a decimal point was read.
    pub point: bool,
    /// How many digits were read behind the decimal point.
    pub decimals: nat,
    /// The digits read so far in minor units: hundred times the whole
    /// part, plus the first two decimals.
    pub minor: nat,
}

/// Whether the character is one of `0` to `9`.
pub open spec fn is_digit(c: char) -> bool {
    '0' <= c <= '9'
}

/// The number that a digit stands for.
pub open spec fn digit_value(c: char) -> nat {
    (c as int - '0' as int) as nat
}

/// The reading before any character.
pub open spec fn scan_start() -> Scan {
    Scan { negative: false, any_digit: false, point: false, decimals: 0, minor: 0 }
}

/// The reading after one more character. A digit before the point extends
/// the whole part; the first two digits behind it are the decimals, further
/// ones are dropped. A minus sign before the first digit turns the sign
/// over. Any other character but the point is passed over.
pub open spec fn scan_step(st: Scan, c: char) -> Scan {
    if is_digit(c) {
        if !st.point {
            Scan { any_digit: true, minor: st.minor * 10 + digit_value(c) * 100, ..st }
        } else if st.decimals == 0 {
            Scan { any_digit: true, decimals: 1, minor: st.minor + digit_value(c) * 10, ..st }
        } else if st.decimals == 1 {
            Scan { any_digit: true, decimals: 2, minor: st.minor + digit_value(c), ..st }
        } else {
            Scan { any_digit: true, decimals: st.decimals + 1, ..st }
        }
    } else if c == '.' {
        Scan { point: true, ..st }
    } else if c == '-' && !st.any_digit {
        Scan { negative: !st.negative, ..st }
    } else {
        st
    }
}

/// The reading of a whole text, character by character from the left.
pub open spec fn scan(text: Seq<char>) -> Scan
    decreases text.len(),
{
    if text.len() == 0 {
        scan_start()
    } else {
        scan_step(scan(text.drop_last()), text.last())
    }
}

/// The amount in minor units that a currency text stands for: none for a
/// text without a digit.
pub open spec fn currency_value(text: Seq<char>) -> Option<int> {
    let st = scan(text);
    if !st.any_digit {
        None
    } else if st.negative {
        Some(-(st.minor as int))
    } else {
        Some(st.minor as int)
    }
}

/// How a currency text reads.
#[derive(Clone, Copy, Debug, PartialEq, Eq, Structural)]
pub enum Reading {
    /// The text holds no digit.
    Blank,
    /// The text stands for this amount in minor units.
    Amount(i32),
    /// The text stands for an amount that no amount column can hold.
    OutOfRange,
}

/// How a currency text reads, as a function of its value.
pub open spec fn reading_of(text: Seq<char>) -> Reading {
    match currency_value(text) {
        None => Reading::Blank,
        Some(v) => if i32::MIN <= v <= i32::MAX {
            Reading::Amount(v as i32)
        } else {
            Reading::OutOfRange
        },
    }
}

/// The amount of a currency text, where it has one that fits.
pub open spec fn currency_amount(text: Seq<char>) -> Option<i32> {
    match reading_of(text) {
        Reading::Amount(v) => Some(v),
        _ => None,
    }
}

/// Reads a currency text: digits, one decimal point and the minus signs
/// before the first digit count, every other character is passed over.
pub fn read_currency(text: &str) -> (reading: Reading)
    ensures
        reading == reading_of(text@),
{
    let n = text.unicode_len();
    let mut negative = false;
    let mut any_digit = false;
    let mut point = false;
    let mut decimals: u8 = 0;
    let mut minor: u64 = 0;
    let mut too_big = false;
    let mut i: usize = 0;
    while i < n
        invariant
            n == text@.len(),
            i <= n,
            negative == scan(text@.take(i as int)).negative,
            any_digit == scan(text@.take(i as int)).any_digit,
            point == scan(text@.take(i as int)).point,
            decimals <= 2,
            decimals as nat == if scan(text@.take(i as int)).decimals < 2 {
                scan(text@.take(i as int)).decimals
            } else {
                2
            },
            !too_big ==> minor as nat == scan(text@.take(i as int)).minor && minor <= 0x8000_0000,
            too_big ==> scan(text@.take(i as int)).minor > 0x8000_0000,
        decreases n - i,
    {
        let c = text.get_char(i);
        proof {
            assert(text@.take(i + 1).drop_last() == text@.take(i as int));
        }
        if c >= '0' && c <= '9' {
            let d: u64 = (c as u32 - '0' as u32) as u64;
            any_digit = true;
            if !too_big {
                if !point {
                    minor = minor * 10 + d * 100;
                } else if decimals == 0 {
                    minor = minor + d * 10;
                } else if decimals == 1 {
                    minor = minor + d;
                }
                if minor > 0x8000_0000 {
                    too_big = true;
                }
            }
            if point && decimals < 2 {
                decimals = decimals + 1;
            }
        } else if c == '.' {
            point = true;
        } else if c == '-' && !any_digit {
            negative = !negative;
        }
        i += 1;
    }
    assert(text@.take(n as int) == text@);
    if !any_digit {
        Reading::Blank
    } else if too_big {
        Reading::OutOfRange
    } else if negative {
        if minor == 0x8000_0000 {
            Reading::Amount(i32::MIN)
        } else {
            Reading::Amount(-(minor as i32))
        }
    } else if minor == 0x8000_0000 {
        Reading::OutOfRange
    } else {
        Reading::Amount(minor as i32)
    }
}

/// The amount in minor units that a currency text stands for; none for a
/// text without a digit or with an amount that does not fit.
pub fn parse_currency(text: &str) -> (amount: Option<i32>)
    ensures
        amount == currency_amount(text@),
{
    match read_currency(text) {
        Reading::Amount(v) => Some(v),
        _ => None,
    }
}

} // verus!
