use vstd::prelude::*;
use vstd::string::StringExecFns;
use crate::clock::{date_text, format_date, Timestamp};
use crate::digits::{append_decimal, decimal, digit_str, two_digits};

verus! {

/// A piece of text as it is handed to the presentation layer.
#[derive(Clone, Debug, PartialEq, Eq)]
pub struct SharedString {
    text: String,
}

impl View for SharedString {
    type V = Seq<char>;

    closed spec fn view(&self) -> Seq<char> {
        self.text@
    }
}

impl SharedString {
    /// The empty text.
    pub fn new() -> (s: SharedString)
        ensures
            s@ == Seq::<char>::empty(),
    {
        SharedString { text: String::new() }
    }

    /// The text as a string slice.
    pub fn as_str(&self) -> (text: &str)
        ensures
            text@ == self@,
    {
        self.text.as_str()
    }

    /// The text as a string.
    pub fn into_string(self) -> (text: String)
        ensures
            text@ == self@,
    {
        self.text
    }
}

/// An amount of minor units as currency text: a minus sign for an amount
/// below zero, the currency sign, the whole units, a point and two digits
/// of minor units.
pub open spec fn dollars_text(n: int) -> Seq<char> {
    let size = if n < 0 {
        -n
    } else {
        n
    };
    let sign = if n < 0 {
        seq!['-']
    } else {
        Seq::<char>::empty()
    };
    sign + seq!['$'] + decimal((size / 100) as nat) + seq!['.'] + two_digits((size % 100) as nat)
}

/// An amount of minor units as currency text, for amounts that may lie
/// beyond what a column holds.
pub fn money(v: i64) -> (s: SharedString)
    ensures
        s@ == dollars_text(v as int),
{
    let size: u64 = if v < 0 {
        (-(v as i128)) as u64
    } else {
        v as u64
    };
    let mut text = String::new();
    proof {
        reveal_strlit("-");
        reveal_strlit("$");
        reveal_strlit(".");
    }
    if v < 0 {
        text.append("-");
    }
    text.append("$");
    append_decimal(&mut text, size / 100);
    text.append(".");
    text.append(digit_str(size % 100 / 10));
    text.append(digit_str(size % 10));
    SharedString { text }
}

/// An amount of minor units as currency text; the empty text for no
/// amount.
pub fn dollars(n: Option<i32>) -> (s: SharedString)
    ensures
        s@ == match n {
            Some(v) => dollars_text(v as int),
            None => Seq::<char>::empty(),
        },
{
    match n {
        Some(v) => money(v as i64),
        None => SharedString::new(),
    }
}

/// An amount of minor units as currency text; the empty text for no amount
/// and for zero.
pub fn nonzero_dollars(n: Option<i32>) -> (s: SharedString)
    ensures
        s@ == match n {
            Some(v) => if v != 0 {
                dollars_text(v as int)
            } else {
                Seq::<char>::empty()
            },
            None => Seq::<char>::empty(),
        },
{
    let v = match n {
        Some(v) => v,
        None => 0,
    };
    if v != 0 {
        dollars(Some(v))
    } else {
        SharedString::new()
    }
}

/// The text, or the empty text where there is none.
pub fn option(s: Option<String>) -> (text: SharedString)
    ensures
        text@ == match s {
            Some(given) => given@,
            None => Seq::<char>::empty(),
        },
{
    match s {
        Some(given) => SharedString { text: given },
        None => SharedString::new(),
    }
}

/// The text of a string slice.
pub fn from(s: &str) -> (text: SharedString)
    ensures
        text@ == s@,
{
    SharedString { text: String::from_str(s) }
}

/// The day of a timestamp as year, month and day.
pub fn timestamp(t: Timestamp) -> (text: SharedString)
    requires
        t.wf(),
    ensures
        text@ == date_text(t.year as int, t.month as int, t.day as int),
{
    SharedString { text: format_date(t.year, t.month, t.day) }
}

} // verus!
