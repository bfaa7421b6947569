//! Diagnostic text rendering: decimal port bytes and the snapshot string.
//!
//! Everything here is verified down to the character sequence, so the
//! snapshot's contract can fix the exact text as a function of the two
//! port-read outcomes.

use vstd::prelude::*;
use vstd::string::StringExecFns;

use crate::error::ExpanderError;

verus! {

/// The decimal digit character for a value below ten.
pub open spec fn spec_digit(d: u8) -> char {
    if d == 0 {
        '0'
    } else if d == 1 {
        '1'
    } else if d == 2 {
        '2'
    } else if d == 3 {
        '3'
    } else if d == 4 {
        '4'
    } else if d == 5 {
        '5'
    } else if d == 6 {
        '6'
    } else if d == 7 {
        '7'
    } else if d == 8 {
        '8'
    } else {
        '9'
    }
}

/// The decimal rendering of a byte: one to three digits, no leading zeros.
pub open spec fn spec_u8_decimal(b: u8) -> Seq<char> {
    if b < 10 {
        seq![spec_digit(b)]
    } else if b < 100 {
        seq![spec_digit(b / 10), spec_digit(b % 10)]
    } else {
        seq![spec_digit(b / 100), spec_digit((b / 10) % 10), spec_digit(b % 10)]
    }
}

/// The text shown for one port: the byte in decimal on a successful read,
/// the sentinel `NONE` on a failed one.
pub open spec fn spec_port_desc(r: Result<u8, ExpanderError>) -> Seq<char> {
    match r {
        Ok(b) => spec_u8_decimal(b),
        Err(_) => "NONE"@,
    }
}

/// The snapshot string around the two port descriptions.
pub open spec fn spec_snapshot(in_desc: Seq<char>, out_desc: Seq<char>) -> Seq<char> {
    "{ In: "@ + in_desc + ", Out: "@ + out_desc + " }"@
}

/// The one-character string for a decimal digit.
fn digit_str(d: u8) -> (r: &'static str)
    requires
        d < 10,
    ensures
        r@ == seq![spec_digit(d)],
{
    if d == 0 {
        proof {
            reveal_strlit("0");
            assert("0"@ =~= seq![spec_digit(d)]);
        }
        "0"
    } else if d == 1 {
        proof {
            reveal_strlit("1");
            assert("1"@ =~= seq![spec_digit(d)]);
        }
        "1"
    } else if d == 2 {
        proof {
            reveal_strlit("2");
            assert("2"@ =~= seq![spec_digit(d)]);
        }
        "2"
    } else if d == 3 {
        proof {
            reveal_strlit("3");
            assert("3"@ =~= seq![spec_digit(d)]);
        }
        "3"
    } else if d == 4 {
        proof {
            reveal_strlit("4");
            assert("4"@ =~= seq![spec_digit(d)]);
        }
        "4"
    } else if d == 5 {
        proof {
            reveal_strlit("5");
            assert("5"@ =~= seq![spec_digit(d)]);
        }
        "5"
    } else if d == 6 {
        proof {
            reveal_strlit("6");
            assert("6"@ =~= seq![spec_digit(d)]);
        }
        "6"
    } else if d == 7 {
        proof {
            reveal_strlit("7");
            assert("7"@ =~= seq![spec_digit(d)]);
        }
        "7"
    } else if d == 8 {
        proof {
            reveal_strlit("8");
            assert("8"@ =~= seq![spec_digit(d)]);
        }
        "8"
    } else {
        proof {
            reveal_strlit("9");
            assert("9"@ =~= seq![spec_digit(d)]);
        }
        "9"
    }
}

/// Render a byte in decimal.
pub fn u8_decimal(b: u8) -> (r: String)
    ensures
        r@ == spec_u8_decimal(b),
{
    if b < 10 {
        String::from_str(digit_str(b))
    } else if b < 100 {
        proof {
            assert(b / 10 < 10) by (nonlinear_arith)
                requires
                    b < 100,
            ;
        }
        let mut s = String::from_str(digit_str(b / 10));
        s.append(digit_str(b % 10));
        proof {
            assert(s@ =~= spec_u8_decimal(b));
        }
        s
    } else {
        proof {
            assert(b / 100 < 10) by (nonlinear_arith)
                requires
                    b <= 255,
            ;
        }
        let mut s = String::from_str(digit_str(b / 100));
        s.append(digit_str((b / 10) % 10));
        s.append(digit_str(b % 10));
        proof {
            assert(s@ =~= spec_u8_decimal(b));
        }
        s
    }
}

/// Render the text for one port from its read outcome.
pub fn port_desc(r: Result<u8, ExpanderError>) -> (s: String)
    ensures
        s@ == spec_port_desc(r),
{
    match r {
        Ok(b) => u8_decimal(b),
        Err(_) => String::from_str("NONE"),
    }
}

/// Frame the two port descriptions into the snapshot string.
pub fn render_snapshot(in_desc: &String, out_desc: &String) -> (r: String)
    ensures
        r@ == spec_snapshot(in_desc@, out_desc@),
{
    let mut s = String::from_str("{ In: ");
    s.append(in_desc.as_str());
    s.append(", Out: ");
    s.append(out_desc.as_str());
    s.append(" }");
    proof {
        assert(s@ =~= spec_snapshot(in_desc@, out_desc@));
    }
    s
}

} // verus!
