//! Values as they are written into a request.
use vstd::prelude::*;
use vstd::string::StringExecFns;

verus! {

/// A value of a request field: a JSON scalar, or a query parameter's text.
///
/// A floating-point number is carried as its IEEE-754 bit pattern
/// (`f64::to_bits`), so that it reaches the wire exactly as given.
#[derive(Debug, Clone, PartialEq)]
pub enum WireValue {
    Str(String),
    Int(i64),
    Bool(bool),
    Float(u64),
    Null,
}

/// What a [`WireValue`] stands for.
pub enum WireView {
    Str(Seq<char>),
    Int(int),
    Bool(bool),
    Float(u64),
    Null,
}

impl View for WireValue {
    type V = WireView;

    open spec fn view(&self) -> WireView {
        match self {
            WireValue::Str(s) => WireView::Str(s@),
            WireValue::Int(i) => WireView::Int(*i as int),
            WireValue::Bool(b) => WireView::Bool(*b),
            WireValue::Float(f) => WireView::Float(*f),
            WireValue::Null => WireView::Null,
        }
    }
}

/// The fields of a request, each name with what its value stands for.
pub open spec fn fields_view(fields: Seq<(String, WireValue)>) -> Seq<(Seq<char>, WireView)> {
    fields.map_values(|f: (String, WireValue)| (f.0@, f.1@))
}

/// A string value.
pub fn text(s: &str) -> (r: WireValue)
    ensures
        r@ == WireView::Str(s@),
{
    WireValue::Str(String::from_str(s))
}

/// A named field.
pub fn named(name: &str, value: WireValue) -> (r: (String, WireValue))
    ensures
        r.0@ == name@,
        r.1 == value,
{
    (String::from_str(name), value)
}

/// The decimal digits of a natural number.
pub open spec fn digits(n: nat) -> Seq<char>
    decreases n,
{
    if n < 10 {
        seq![(('0' as u8) + n) as char]
    } else {
        digits(n / 10).push((('0' as u8) + (n % 10)) as char)
    }
}

/// The decimal text of an integer, with a leading `-` when it is negative.
pub open spec fn decimal(n: int) -> Seq<char> {
    if n < 0 {
        seq!['-'] + digits((-n) as nat)
    } else {
        digits(n as nat)
    }
}

/// The decimal digit of `d`, below 10.
fn digit_text(d: u64) -> (r: &'static str)
    requires
        d < 10,
    ensures
        r@ == seq![(('0' as u8) + d) as char],
{
    match d {
        0 => {
            proof {
                reveal_strlit("0");
            }
            "0"
        },
        1 => {
            proof {
                reveal_strlit("1");
            }
            "1"
        },
        2 => {
            proof {
                reveal_strlit("2");
            }
            "2"
        },
        3 => {
            proof {
                reveal_strlit("3");
            }
            "3"
        },
        4 => {
            proof {
                reveal_strlit("4");
            }
            "4"
        },
        5 => {
            proof {
                reveal_strlit("5");
            }
            "5"
        },
        6 => {
            proof {
                reveal_strlit("6");
            }
            "6"
        },
        7 => {
            proof {
                reveal_strlit("7");
            }
            "7"
        },
        8 => {
            proof {
                reveal_strlit("8");
            }
            "8"
        },
        _ => {
            proof {
                reveal_strlit("9");
            }
            "9"
        },
    }
}

/// The decimal digits of `n`.
fn digits_text(n: u64) -> (r: String)
    ensures
        r@ == digits(n as nat),
    decreases n,
{
    if n < 10 {
        String::from_str(digit_text(n))
    } else {
        let mut r = digits_text(n / 10);
        r.append(digit_text(n % 10));
        r
    }
}

/// The decimal text of `n`: its digits, with a leading `-` when it is negative.
pub fn decimal_text(n: i64) -> (r: String)
    ensures
        r@ == decimal(n as int),
{
    if n < 0 {
        let magnitude: u64 = ((-(n + 1)) as u64) + 1;
        let mut r = String::from_str("-");
        proof {
            reveal_strlit("-");
        }
        r.append(digits_text(magnitude).as_str());
        r
    } else {
        digits_text(n as u64)
    }
}

} // verus!
