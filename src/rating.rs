//! Ratings as fixed-point decimals with two fractional digits.
use crate::text::{
    all_digits, decimal_string, decimal_text, digit_char, digit_of, digit_value, digits_value,
    is_digit, read_digits,
};
use vstd::prelude::*;
use vstd::string::*;

verus! {

/// A non-negative rating, held as a whole number of hundredths
/// (`4.5` is 450 hundredths).
#[derive(Clone, Copy, Debug, PartialEq, Eq, Structural)]
pub struct Rating {
    pub hundredths: u64,
}

/// How a rating is written: the whole part in decimal, then, when the
/// fraction is not zero, a point and its digits without trailing zeros
/// (`0`, `5`, `4.5`, `4.25`).
pub open spec fn rating_text(h: nat) -> Seq<char> {
    let whole = decimal_text(h / 100);
    let cents = h % 100;
    if cents == 0 {
        whole
    } else if cents % 10 == 0 {
        whole.push('.').push(digit_char(cents / 10))
    } else {
        whole.push('.').push(digit_char(cents / 10)).push(digit_char(cents % 10))
    }
}

/// The hundredths that a text writes, when it is one or more digits,
/// optionally followed by a point and one or two digits.
pub open spec fn rating_value(s: Seq<char>) -> Option<nat> {
    let n = s.len();
    if n > 0 && all_digits(s) {
        Some(digits_value(s) * 100)
    } else if n >= 3 && s[n - 2] == '.' && all_digits(s.take(n - 2)) && is_digit(s[n - 1]) {
        Some(digits_value(s.take(n - 2)) * 100 + digit_of(s[n - 1]).unwrap() * 10)
    } else if n >= 4 && s[n - 3] == '.' && all_digits(s.take(n - 3)) && is_digit(s[n - 2])
        && is_digit(s[n - 1]) {
        Some(
            digits_value(s.take(n - 3)) * 100 + digit_of(s[n - 2]).unwrap() * 10 + digit_of(
                s[n - 1],
            ).unwrap(),
        )
    } else {
        None
    }
}

/// The rating that a text reads as, if it is well formed and in range.
pub open spec fn parsed_rating(s: Seq<char>) -> Option<Rating> {
    match rating_value(s) {
        Some(v) => if v <= u64::MAX {
            Some(Rating { hundredths: v as u64 })
        } else {
            None
        },
        None => None,
    }
}

impl Rating {
    /// The zero rating every new record starts with.
    pub fn zero() -> (r: Rating)
        ensures
            r.hundredths == 0,
    {
        Rating { hundredths: 0 }
    }

    pub fn from_hundredths(hundredths: u64) -> (r: Rating)
        ensures
            r.hundredths == hundredths,
    {
        Rating { hundredths }
    }

    pub fn hundredths(&self) -> (r: u64)
        ensures
            r == self.hundredths,
    {
        self.hundredths
    }

    /// The rating written as text.
    pub fn to_text(&self) -> (r: String)
        ensures
            r@ == rating_text(self.hundredths as nat),
    {
        let mut s = decimal_string(self.hundredths / 100);
        let cents = self.hundredths % 100;
        if cents != 0 {
            proof {
                reveal_strlit(".");
            }
            s.append(".");
            let tenths = decimal_string(cents / 10);
            s.append(tenths.as_str());
            if cents % 10 != 0 {
                let last = decimal_string(cents % 10);
                s.append(last.as_str());
            }
        }
        s
    }

    /// Reads a rating from text; `None` when the text is not of the form
    /// `digits`, `digits.d` or `digits.dd`, or the value is out of range.
    pub fn parse(text: &str) -> (r: Option<Rating>)
        ensures
            r == parsed_rating(text@),
    {
        let n = text.unicode_len();
        if n == 0 {
            return None;
        }
        let ghost s = text@;
        if n >= 3 && text.get_char(n - 2) == '.' {
            assert(!all_digits(s)) by {
                assert(!is_digit(s[n - 2]));
            }
            assert(s.take(n - 2) =~= s.subrange(0, n - 2));
            let whole = match read_digits(text, 0, n - 2) {
                Some(w) => w,
                None => {
                    proof {
                        if all_digits(s.take(n - 2)) && is_digit(s[n - 1]) {
                            assert(digits_value(s.take(n - 2)) * 100 <= rating_value(s).unwrap());
                        }
                    }
                    return None;
                },
            };
            let d = match digit_value(text.get_char(n - 1)) {
                Some(d) => d,
                None => {
                    return None;
                },
            };
            Self::combine(whole, d * 10)
        } else if n >= 4 && text.get_char(n - 3) == '.' {
            assert(!all_digits(s)) by {
                assert(!is_digit(s[n - 3]));
            }
            assert(s.take(n - 3) =~= s.subrange(0, n - 3));
            let whole = match read_digits(text, 0, n - 3) {
                Some(w) => w,
                None => {
                    proof {
                        if all_digits(s.take(n - 3)) && is_digit(s[n - 2]) && is_digit(s[n - 1]) {
                            assert(digits_value(s.take(n - 3)) * 100 <= rating_value(s).unwrap());
                        }
                    }
                    return None;
                },
            };
            let d1 = match digit_value(text.get_char(n - 2)) {
                Some(d) => d,
                None => {
                    return None;
                },
            };
            let d2 = match digit_value(text.get_char(n - 1)) {
                Some(d) => d,
                None => {
                    return None;
                },
            };
            Self::combine(whole, d1 * 10 + d2)
        } else {
            assert(s =~= s.subrange(0, n as int));
            match read_digits(text, 0, n) {
                Some(w) => Self::combine(w, 0),
                None => None,
            }
        }
    }

    /// `whole` units and `cents` hundredths, if the total fits.
    fn combine(whole: u64, cents: u64) -> (r: Option<Rating>)
        requires
            cents < 100,
        ensures
            r == (if whole * 100 + cents <= u64::MAX {
                Some(Rating { hundredths: (whole * 100 + cents) as u64 })
            } else {
                None
            }),
    {
        match whole.checked_mul(100) {
            Some(m) => match m.checked_add(cents) {
                Some(v) => Some(Rating { hundredths: v }),
                None => None,
            },
            None => None,
        }
    }
}

} // verus!
